pub mod identifier;
pub mod manager;
pub mod service;
