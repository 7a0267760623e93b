pub mod auth;
pub mod middleware;
