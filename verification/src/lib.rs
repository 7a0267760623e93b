pub mod api;
pub mod cli;
pub mod http_client;
pub mod models;
pub mod outside;
pub mod text;
