//! `leaves logout`: deletes the saved login.
use vstd::prelude::*;
use crate::cli::config::ConfigError;

verus! {

/// Why logging out failed.
#[derive(Debug)]
pub enum LogoutError {
    DeletingConfig { source: ConfigError },
}

impl LogoutError {
    /// The text that describes the error.
    pub fn message(&self) -> (m: &'static str)
        ensures
            m@ == "loging out failed"@,
    {
        "loging out failed"
    }
}

} // verus!
