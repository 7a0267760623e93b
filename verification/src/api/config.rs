//! The server's settings, read from the environment.
use vstd::prelude::*;

verus! {

/// Where the server keeps its database and files when `DATA_PATH` is not set.
pub fn data_path() -> (p: String)
    ensures
        p@ == "/data"@,
{
    "/data".to_owned()
}

/// Whether anyone may sign up when `OPEN_REGISTRATION` is not set.
pub fn open_registration() -> (open: bool)
    ensures
        open,
{
    true
}

/// The port the server listens on when `PORT` is not set.
pub fn port() -> (p: u16)
    ensures
        p == 80,
{
    80
}

/// The server's settings.
#[derive(Debug)]
pub struct Config {
    pub data_path: String,
    pub open_registration: bool,
    pub public_url: String,
    pub port: u16,
}

} // verus!
