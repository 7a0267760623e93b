//! Random identifiers for files and API tokens.
use vstd::prelude::*;
use vstd::utf8::*;
use crate::text::is_ascii_alphanumeric;

verus! {

/// One character drawn by `rand`'s `Alphanumeric` distribution from the
/// thread-local generator. `rand` documents (and its source shows) that the
/// character is one of `a-z`, `A-Z`, `0-9`; which one is left to chance.
#[verifier::external_body]
fn sample_alphanumeric() -> (c: char)
    ensures
        is_ascii_alphanumeric(c),
{
    rand::Rng::sample(&mut rand::thread_rng(), rand::distributions::Alphanumeric)
}

/// A random string of `n` ASCII letters and digits.
pub fn random_string(n: usize) -> (s: String)
    ensures
        s@.len() == n,
        forall|i: int| 0 <= i < n ==> is_ascii_alphanumeric(#[trigger] s@[i]),
        encode_utf8(s@).len() == n,
{
    let mut s = String::new();
    let mut i: usize = 0;
    while i < n
        invariant
            i <= n,
            s@.len() == i,
            forall|j: int| 0 <= j < i ==> is_ascii_alphanumeric(#[trigger] s@[j]),
        decreases n - i,
    {
        let c = sample_alphanumeric();
        s.push(c);
        i = i + 1;
    }
    proof {
        assert(is_ascii_chars(s@));
        is_ascii_chars_encode_utf8(s@);
    }
    s
}

} // verus!
