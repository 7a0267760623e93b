//! `GET /`: tells that the server is up.
use vstd::prelude::*;

verus! {

/// The status of the answer to `GET /`: 200, with no body.
pub fn get() -> (status: u16)
    ensures
        status == 200,
{
    200
}

} // verus!
