//! The values that the API sends to its clients.
use vstd::prelude::*;

verus! {

/// An API token of a user.
#[derive(Clone, Debug)]
pub struct ApiToken {
    pub contents: String,
    pub id: i64,
    pub user_id: i64,
}

/// What the API tells about a stored file.
#[derive(Clone, Debug)]
pub struct FileInfo {
    pub id: String,
    pub size: u64,
    pub url: String,
}

/// The answer to a signup: the new user's email, id and API token.
#[derive(Clone, Debug)]
pub struct Signup {
    pub email: String,
    pub id: u64,
    pub token: String,
}

/// The answer to an upload: the new file's id, size and URL.
#[derive(Clone, Debug)]
pub struct Upload {
    pub id: String,
    pub size: u64,
    pub url: String,
}

/// A user as the API shows it.
#[derive(Clone, Debug)]
pub struct User {
    pub email: String,
    pub id: i64,
}

} // verus!
