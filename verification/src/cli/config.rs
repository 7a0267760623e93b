//! The command line client's saved login: which API, which email, which token.
use vstd::prelude::*;
use crate::text::{trim, trim_to_owned};

verus! {

/// Why the saved login could not be read, written or deleted.
#[derive(Debug)]
pub enum ConfigError {
    Deleting { source: std::io::Error },
    DeletingConfig { source: std::io::Error },
    DeserializingConfig { source: serde_json::Error },
    Directories { source: DirectoriesError },
    ReadingConfig { source: std::io::Error },
    SerializingConfig { source: serde_json::Error },
    WritingConfig { source: std::io::Error },
}

impl ConfigError {
    /// The text that describes the error.
    pub fn message(&self) -> (m: &'static str)
        ensures
            m@ == "configuration is in an invalid state"@,
    {
        "configuration is in an invalid state"
    }
}

/// The saved login.
#[derive(Clone, Debug)]
pub struct Config {
    pub api_url: String,
    pub email: String,
    pub token: String,
}

impl Config {
    /// A login of the given API URL, email and token, each without leading
    /// and trailing whitespace.
    pub fn new(api_url: String, email: String, token: String) -> (c: Self)
        ensures
            c.api_url@ == trim(api_url@),
            c.email@ == trim(email@),
            c.token@ == trim(token@),
    {
        Self {
            api_url: trim_to_owned(api_url.as_str()),
            email: trim_to_owned(email.as_str()),
            token: trim_to_owned(token.as_str()),
        }
    }
}

/// Why the client's data directory could not be found or made.
#[derive(Debug)]
pub enum DirectoriesError {
    CreatingDirectory { path: std::path::PathBuf, source: std::io::Error },
    UserHasNoHome,
}

impl DirectoriesError {
    /// The text that describes the error.
    pub fn message(&self) -> (m: &'static str)
        ensures
            m@ == "directory is not proper"@,
    {
        "directory is not proper"
    }
}

} // verus!
