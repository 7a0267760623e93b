pub mod client;
pub mod config;
pub mod error;
