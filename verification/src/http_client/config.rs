//! Settings of the API client: where the API is and whose credentials to send.
use vstd::prelude::*;
use vstd::string::*;
use vstd::utf8::*;
use crate::api::common::auth::{
    credentials_header, law_credentials_header_round_trip, marker_at, parse_credentials,
    basic_chars, marker_chars, AuthParseError, API_TOKEN_LEN,
};

verus! {

/// Settings of the API client.
#[derive(Clone, Debug)]
#[non_exhaustive]
pub struct Config {
    pub api_token: Option<String>,
    pub api_url: String,
    pub email: Option<String>,
}

/// The `Authorization` header value that a configuration sends, if it holds
/// both an API token and an email.
pub open spec fn authorization_of(api_token: Option<String>, email: Option<String>) -> Option<Seq<char>> {
    match (api_token, email) {
        (Some(t), Some(e)) => Some(credentials_header(e@, t@)),
        _ => None,
    }
}

impl Config {
    /// Builds a configuration from its token, API URL and email.
    pub fn new(api_token: Option<String>, api_url: String, email: Option<String>) -> (c: Self)
        ensures
            c.api_token == api_token,
            c.api_url == api_url,
            c.email == email,
    {
        Self::_new(api_token, api_url, email)
    }

    /// Builds a configuration from its fields.
    fn _new(api_token: Option<String>, api_url: String, email: Option<String>) -> (c: Self)
        ensures
            c.api_token == api_token,
            c.api_url == api_url,
            c.email == email,
    {
        Self { api_token, api_url, email }
    }

    /// The `Authorization` header value `Basic <email>/token:<api token>`, or
    /// `None` when the token or the email is missing.
    pub fn auth(&self) -> (res: Option<String>)
        ensures
            match res {
                Some(h) => authorization_of(self.api_token, self.email) == Some(h@),
                None => authorization_of(self.api_token, self.email) is None,
            },
    {
        match (self.api_token.as_ref(), self.email.as_ref()) {
            (Some(api_token), Some(email)) => {
                let mut value = String::from_str("Basic ");
                value.append(email.as_str());
                value.append("/token:");
                value.append(api_token.as_str());
                proof {
                    reveal_strlit("Basic ");
                    reveal_strlit("/token:");
                    assert("Basic "@ =~= basic_chars());
                    assert("/token:"@ =~= marker_chars());
                    assert(value@ =~= credentials_header(email@, api_token@));
                }
                Some(value)
            },
            _ => None,
        }
    }
}

/// Law: the `Authorization` header value that the client sends is read by the
/// API's credentials parser as the client's own email and token, whenever the
/// email is not empty, neither holds `"/token:"`, and the token is 50 bytes.
pub proof fn law_client_auth_accepted_by_api(api_token: String, email: String)
    requires
        email@.len() > 0,
        forall|q: int| !#[trigger] marker_at(encode_utf8(email@), q),
        forall|q: int| !#[trigger] marker_at(encode_utf8(api_token@), q),
        encode_utf8(api_token@).len() == API_TOKEN_LEN,
    ensures
        authorization_of(Some(api_token), Some(email)) matches Some(h) && parse_credentials(
            encode_utf8(h),
        ) == Ok::<(Seq<u8>, Seq<u8>), AuthParseError>((encode_utf8(email@), encode_utf8(api_token@))),
{
    law_credentials_header_round_trip(email@, api_token@);
}

} // verus!
