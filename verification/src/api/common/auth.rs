//! The `Authorization` header scheme of the API: `Basic <email>/token:<api token>`.
use vstd::prelude::*;
use vstd::utf8::*;
use vstd::string::*;

verus! {

broadcast use vstd::utf8::group_utf8_lib;

/// The user on whose behalf a request is made, once the middleware has checked
/// the credentials of the request.
pub struct User {
    pub api_token: String,
    pub email: String,
    pub id: i64,
}

/// Why an `Authorization` header value could not be read as credentials.
#[derive(Clone, Copy, Debug, PartialEq, Eq, Structural)]
pub enum AuthParseError {
    ApiTokenInvalid,
    EmailMissing,
    NotBasic,
    ValueInvalid,
    ValueMissing,
}

/// Credentials read from an `Authorization` header value; both fields borrow
/// from the header value.
#[derive(Clone, Debug, PartialEq, Eq)]
pub struct Auth<'a> {
    pub api_token: &'a str,
    pub email: &'a str,
}

/// The number of bytes of every API token.
pub const API_TOKEN_LEN: usize = 50;

/// `"Basic "` as characters.
pub open spec fn basic_chars() -> Seq<char> {
    seq!['B', 'a', 's', 'i', 'c', ' ']
}

/// `"Basic "` as bytes.
pub open spec fn basic_bytes() -> Seq<u8> {
    seq![66u8, 97u8, 115u8, 105u8, 99u8, 32u8]
}

/// `"/token:"`, the separator between email and token, as characters.
pub open spec fn marker_chars() -> Seq<char> {
    seq!['/', 't', 'o', 'k', 'e', 'n', ':']
}

/// `"/token:"` as bytes.
pub open spec fn marker_bytes() -> Seq<u8> {
    seq![47u8, 116u8, 111u8, 107u8, 101u8, 110u8, 58u8]
}

/// `"/token:"` starts at byte `i` of `s`.
pub open spec fn marker_at(s: Seq<u8>, i: int) -> bool {
    0 <= i && i + 7 <= s.len() && s.subrange(i, i + 7) == marker_bytes()
}

/// The number of positions below `n` at which `"/token:"` starts in `s`.
pub open spec fn count_markers_before(s: Seq<u8>, n: int) -> nat
    decreases n,
{
    if n <= 0 {
        0
    } else {
        count_markers_before(s, n - 1) + (if marker_at(s, n - 1) {
            1nat
        } else {
            0nat
        })
    }
}

/// The number of occurrences of `"/token:"` in `s` (they cannot overlap).
pub open spec fn marker_count(s: Seq<u8>) -> nat {
    count_markers_before(s, s.len() as int)
}

/// What reading the header value with bytes `b` gives: the email and the
/// token as bytes, or the error.
pub open spec fn parse_credentials(b: Seq<u8>) -> Result<(Seq<u8>, Seq<u8>), AuthParseError> {
    if !(b.len() >= 6 && b.subrange(0, 6) == basic_bytes()) {
        Err(AuthParseError::NotBasic)
    } else {
        let d = b.subrange(6, b.len() as int);
        if marker_count(d) != 1 {
            Err(AuthParseError::ValueInvalid)
        } else {
            let p = choose|p: int| marker_at(d, p);
            if p == 0 {
                Err(AuthParseError::EmailMissing)
            } else if d.len() - (p + 7) != API_TOKEN_LEN {
                Err(AuthParseError::ApiTokenInvalid)
            } else {
                Ok((d.subrange(0, p), d.subrange(p + 7, d.len() as int)))
            }
        }
    }
}

/// The header value that carries `email` and `api_token`.
pub open spec fn credentials_header(email: Seq<char>, api_token: Seq<char>) -> Seq<char> {
    basic_chars() + email + marker_chars() + api_token
}

proof fn lemma_encode_concat(a: Seq<char>, b: Seq<char>)
    ensures
        encode_utf8(a + b) == encode_utf8(a) + encode_utf8(b),
    decreases a.len(),
{
    if a.len() == 0 {
        assert(a + b =~= b);
        assert(encode_utf8(a) + encode_utf8(b) =~= encode_utf8(b));
    } else {
        lemma_encode_concat(a.drop_first(), b);
        assert((a + b).drop_first() =~= a.drop_first() + b);
        assert((a + b)[0] == a[0]);
        assert(encode_utf8(a + b) =~= encode_utf8(a) + encode_utf8(b));
    }
}

proof fn lemma_constant_encodings()
    ensures
        encode_utf8(basic_chars()) == basic_bytes(),
        encode_utf8(marker_chars()) == marker_bytes(),
{
    let bc = basic_chars();
    let mc = marker_chars();
    assert(is_ascii_chars(bc));
    assert(is_ascii_chars(mc));
    is_ascii_chars_encode_utf8(bc);
    is_ascii_chars_encode_utf8(mc);
    assert(encode_utf8(bc) =~= basic_bytes());
    assert(encode_utf8(mc) =~= marker_bytes());
}

/// In valid UTF-8, the byte after an ASCII byte starts a character (or is the end).
proof fn lemma_boundary_after_ascii(s: Seq<u8>, i: int)
    requires
        valid_utf8(s),
        0 <= i < s.len(),
        is_leading_byte_width_1(s[i]),
    ensures
        is_char_boundary(s, i + 1),
    decreases s.len(),
{
    reveal_with_fuel(is_char_boundary, 2);
    let l = length_of_first_scalar(s);
    let rest = pop_first_scalar(s);
    assert(valid_utf8(rest));
    if i == 0 {
        assert(l == 1);
        is_char_boundary_start_end_of_seq(rest);
    } else if i < l {
        assert(is_continuation_byte(s[i]));
    } else {
        assert(rest[i - l] == s[i]);
        lemma_boundary_after_ascii(rest, i - l);
    }
}

proof fn lemma_count_monotone(s: Seq<u8>, m: int, n: int)
    requires
        m <= n,
    ensures
        count_markers_before(s, m) <= count_markers_before(s, n),
    decreases n - m,
{
    if m < n {
        lemma_count_monotone(s, m, n - 1);
    }
}

/// Two different marker positions below `n` make the count at least two.
proof fn lemma_sole_marker(s: Seq<u8>, p: int, q: int)
    requires
        marker_at(s, p),
        marker_at(s, q),
        count_markers_before(s, s.len() as int) == 1,
    ensures
        p == q,
{
    if p != q {
        let (lo, hi) = if p < q {
            (p, q)
        } else {
            (q, p)
        };
        lemma_count_monotone(s, lo + 1, hi);
        lemma_count_monotone(s, hi + 1, s.len() as int);
        assert(count_markers_before(s, lo + 1) >= 1);
        assert(count_markers_before(s, hi + 1) >= 2);
    }
}

/// Counting markers below `n` when `p` is the only position where one starts.
proof fn lemma_count_single(s: Seq<u8>, p: int, n: int)
    requires
        marker_at(s, p),
        forall|q: int| #[trigger] marker_at(s, q) ==> q == p,
        0 <= n,
    ensures
        count_markers_before(s, n) == (if n > p {
            1nat
        } else {
            0nat
        }),
    decreases n,
{
    if n > 0 {
        lemma_count_single(s, p, n - 1);
    }
}

/// In `e + "/token:" + t`, with no marker inside `e` or `t`, the only
/// marker is the one between them.
proof fn lemma_only_joining_marker(e: Seq<u8>, t: Seq<u8>, q: int)
    requires
        forall|i: int| !#[trigger] marker_at(e, i),
        forall|i: int| !#[trigger] marker_at(t, i),
        marker_at(e + marker_bytes() + t, q),
    ensures
        q == e.len(),
{
    let m = marker_bytes();
    let d = e + m + t;
    let p = e.len() as int;
    let w = d.subrange(q, q + 7);
    assert(w[0] == 47u8);
    if q + 7 <= p {
        assert(e.subrange(q, q + 7) =~= w);
        assert(marker_at(e, q));
    } else if q < p {
        assert(w[p - q] == d[p]);
        assert(d[p] == 47u8);
    } else if q < p + 7 && q > p {
        assert(d[q] == m[q - p]);
    } else if q >= p + 7 {
        assert(t.subrange(q - p - 7, q - p) =~= w);
        assert(marker_at(t, q - p - 7));
    }
}

/// Law: the header value built from an email and an API token reads back as
/// that email and that token, whenever the email is not empty, neither of
/// them holds `"/token:"`, and the token is 50 bytes long.
pub proof fn law_credentials_header_round_trip(email: Seq<char>, api_token: Seq<char>)
    requires
        email.len() > 0,
        forall|q: int| !#[trigger] marker_at(encode_utf8(email), q),
        forall|q: int| !#[trigger] marker_at(encode_utf8(api_token), q),
        encode_utf8(api_token).len() == API_TOKEN_LEN,
    ensures
        parse_credentials(encode_utf8(credentials_header(email, api_token))) == Ok::<
            (Seq<u8>, Seq<u8>),
            AuthParseError,
        >((encode_utf8(email), encode_utf8(api_token))),
{
    let e = encode_utf8(email);
    let t = encode_utf8(api_token);
    let m = marker_bytes();
    lemma_constant_encodings();
    lemma_encode_concat(basic_chars(), email);
    lemma_encode_concat(basic_chars() + email, marker_chars());
    lemma_encode_concat(basic_chars() + email + marker_chars(), api_token);
    let b = encode_utf8(credentials_header(email, api_token));
    assert(b =~= basic_bytes() + e + m + t);
    assert(e.len() > 0) by {
        encode_utf8_first_scalar(email);
    }
    assert(b.subrange(0, 6) =~= basic_bytes());
    let d = b.subrange(6, b.len() as int);
    assert(d =~= e + m + t);
    let p = e.len() as int;
    assert(d.subrange(p, p + 7) =~= m);
    assert(marker_at(d, p));
    assert forall|q: int| #[trigger] marker_at(d, q) implies q == p by {
        lemma_only_joining_marker(e, t, q);
    }
    lemma_count_single(d, p, d.len() as int);
    let c = choose|c: int| marker_at(d, c);
    assert(c == p);
    assert(d.subrange(0, p) =~= e);
    assert(d.subrange(p + 7, d.len() as int) =~= t);
}

/// Whether `"/token:"` starts at byte `j` of `b`.
fn marker_at_exec(b: &[u8], j: usize) -> (r: bool)
    ensures
        r == marker_at(b@, j as int),
{
    if j > b.len() || b.len() - j < 7 {
        return false;
    }
    let r = b[j] == 47u8 && b[j + 1] == 116u8 && b[j + 2] == 111u8 && b[j + 3] == 107u8 && b[j
        + 4] == 101u8 && b[j + 5] == 110u8 && b[j + 6] == 58u8;
    proof {
        if r {
            assert(b@.subrange(j as int, j + 7) =~= marker_bytes());
        } else {
            if b@.subrange(j as int, j + 7) == marker_bytes() {
                assert(b@.subrange(j as int, j + 7)[0] == b@[j as int]);
                assert(b@.subrange(j as int, j + 7)[1] == b@[j + 1]);
                assert(b@.subrange(j as int, j + 7)[2] == b@[j + 2]);
                assert(b@.subrange(j as int, j + 7)[3] == b@[j + 3]);
                assert(b@.subrange(j as int, j + 7)[4] == b@[j + 4]);
                assert(b@.subrange(j as int, j + 7)[5] == b@[j + 5]);
                assert(b@.subrange(j as int, j + 7)[6] == b@[j + 6]);
            }
        }
    }
    r
}

impl<'a> Auth<'a> {
    /// Reads the credentials of an `Authorization` header value of the form
    /// `Basic <email>/token:<api token>`: the value must start with `"Basic "`,
    /// hold `"/token:"` exactly once after it, have a non-empty email before
    /// it and a token of exactly 50 bytes after it.
    pub fn try_from(auth: &'a str) -> (res: Result<Auth<'a>, AuthParseError>)
        ensures
            match res {
                Ok(a) => parse_credentials(auth.spec_bytes()) == Ok::<
                    (Seq<u8>, Seq<u8>),
                    AuthParseError,
                >((a.email.spec_bytes(), a.api_token.spec_bytes())),
                Err(e) => parse_credentials(auth.spec_bytes()) == Err::<
                    (Seq<u8>, Seq<u8>),
                    AuthParseError,
                >(e),
            },
            res matches Ok(a) ==> auth@ == credentials_header(a.email@, a.api_token@),
    {
        let b = auth.as_bytes();
        let n = b.len();
        proof {
            assert(valid_utf8(b@));
        }
        if n < 6 || b[0] != 66u8 || b[1] != 97u8 || b[2] != 115u8 || b[3] != 105u8 || b[4] != 99u8
            || b[5] != 32u8 {
            proof {
                if n >= 6 && b@.subrange(0, 6) == basic_bytes() {
                    assert(b@.subrange(0, 6)[0] == b@[0]);
                    assert(b@.subrange(0, 6)[1] == b@[1]);
                    assert(b@.subrange(0, 6)[2] == b@[2]);
                    assert(b@.subrange(0, 6)[3] == b@[3]);
                    assert(b@.subrange(0, 6)[4] == b@[4]);
                    assert(b@.subrange(0, 6)[5] == b@[5]);
                }
            }
            return Err(AuthParseError::NotBasic);
        }
        proof {
            assert(b@.subrange(0, 6) =~= basic_bytes());
        }
        let ghost d = b@.subrange(6, n as int);
        let mut count: usize = 0;
        let mut first: usize = 0;
        let mut i: usize = 0;
        while i < n - 6
            invariant
                n == b@.len(),
                n >= 6,
                d == b@.subrange(6, n as int),
                i <= n - 6,
                count == count_markers_before(d, i as int),
                count <= i,
                count >= 1 ==> (first < i && marker_at(d, first as int) && count_markers_before(
                    d,
                    first as int,
                ) == 0),
            decreases n - 6 - i,
        {
            let found = marker_at_exec(b, i + 6);
            proof {
                if marker_at(d, i as int) {
                    assert(d.subrange(i as int, i + 7) =~= b@.subrange(i + 6, i + 13));
                }
                if found {
                    assert(d.subrange(i as int, i + 7) =~= b@.subrange(i + 6, i + 13));
                }
            }
            if found {
                if count == 0 {
                    first = i;
                }
                count = count + 1;
            }
            i = i + 1;
        }
        if count != 1 {
            return Err(AuthParseError::ValueInvalid);
        }
        let p = first;
        proof {
            let c = choose|c: int| marker_at(d, c);
            lemma_sole_marker(d, c, p as int);
        }
        if p == 0 {
            return Err(AuthParseError::EmailMissing);
        }
        if (n - 6) - (p + 7) != API_TOKEN_LEN {
            return Err(AuthParseError::ApiTokenInvalid);
        }
        proof {
            lemma_boundary_after_ascii(b@, 5);
        }
        let (_scheme, data) = auth.split_at(6);
        proof {
            assert(data.spec_bytes() =~= d);
            assert(d.subrange(p as int, p + 7) == marker_bytes());
            assert(d[p as int] == d.subrange(p as int, p + 7)[0]);
            assert(!is_continuation_byte(d[p as int]));
            is_char_boundary_iff_not_is_continuation_byte(d, p as int);
        }
        let (email, rest) = data.split_at(p);
        proof {
            let r = rest.spec_bytes();
            assert(r =~= d.subrange(p as int, d.len() as int));
            assert(r[6] == d.subrange(p as int, p + 7)[6]);
            lemma_boundary_after_ascii(r, 6);
        }
        let (_marker, api_token) = rest.split_at(7);
        proof {
            let eb = email.spec_bytes();
            let tb = api_token.spec_bytes();
            assert(eb =~= d.subrange(0, p as int));
            assert(tb =~= d.subrange(p + 7, d.len() as int));
            lemma_constant_encodings();
            lemma_encode_concat(basic_chars(), email@);
            lemma_encode_concat(basic_chars() + email@, marker_chars());
            lemma_encode_concat(basic_chars() + email@ + marker_chars(), api_token@);
            assert(b@ =~= basic_bytes() + eb + marker_bytes() + tb);
            assert(encode_utf8(credentials_header(email@, api_token@)) == b@);
            encode_utf8_decode_utf8(auth@);
            encode_utf8_decode_utf8(credentials_header(email@, api_token@));
        }
        Ok(Auth { api_token, email })
    }
}

} // verus!
