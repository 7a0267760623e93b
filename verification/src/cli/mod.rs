pub mod command;
pub mod config;
