pub mod config;
pub mod error;
pub mod local;
pub mod order;
pub mod paths;
pub mod probe;
pub mod provider;
pub mod types;
