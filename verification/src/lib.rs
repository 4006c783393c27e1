pub mod client;
pub mod config;
pub mod error;
pub mod history;
pub mod laws;
pub mod session;
pub mod types;
