//! Rows of the API's database tables.
use vstd::prelude::*;

verus! {

/// A row of `api_tokens`.
#[derive(Clone, Debug)]
pub struct ApiToken {
    pub id: i64,
    pub contents: String,
    pub user_id: i64,
}

/// A row of `files`.
#[derive(Clone, Debug)]
pub struct File {
    pub id: i64,
    pub size: i32,
    pub user_id: i64,
}

/// A row of `users`.
#[derive(Clone, Debug)]
pub struct User {
    pub email: String,
    pub id: i64,
}

} // verus!
