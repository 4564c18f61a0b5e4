pub mod files;
pub mod health;
pub mod projects;
pub mod streams;
