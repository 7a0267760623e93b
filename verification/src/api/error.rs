//! Why the server could not start.
use vstd::prelude::*;

verus! {

/// Why the server could not start.
#[derive(Debug)]
pub enum ApiError {
    Envy { source: envy::Error },
    R2d2Initialization { source: r2d2::Error },
    ServerInitialization { port: u16, source: std::io::Error },
}

impl ApiError {
    /// The text that describes the error.
    pub fn message(&self) -> (m: &'static str)
        ensures
            m@ == match self {
                ApiError::Envy { .. } => "environment variables invalid"@,
                ApiError::R2d2Initialization { .. } => "couldn't open database"@,
                ApiError::ServerInitialization { .. } => "couldn't bind to port when starting server"@,
            },
    {
        match self {
            ApiError::Envy { .. } => "environment variables invalid",
            ApiError::R2d2Initialization { .. } => "couldn't open database",
            ApiError::ServerInitialization { .. } => "couldn't bind to port when starting server",
        }
    }
}

} // verus!
