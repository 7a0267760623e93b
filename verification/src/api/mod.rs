pub mod common;
pub mod config;
pub mod error;
pub mod migrations;
pub mod model;
pub mod routes;
pub mod utils;
