//! The middleware that lets a request through only with valid credentials.
use vstd::prelude::*;
use vstd::string::*;
use vstd::utf8::encode_utf8;
use crate::api::common::auth::{parse_credentials, credentials_header, Auth, AuthParseError, User};
use crate::models::v1::User as UserModel;

verus! {

/// Why a request was refused.
#[derive(Clone, Copy, Debug, PartialEq, Eq, Structural)]
pub enum TokenError {
    AuthorizationMalformed,
    AuthorizationMissing,
    CreatingAuthorizationHeader,
    Unauthorized,
}

impl TokenError {
    /// The text that describes the error.
    pub fn message(&self) -> (m: &'static str)
        ensures
            m@ == (match *self {
                TokenError::AuthorizationMalformed => "authorization malformed"@,
                TokenError::AuthorizationMissing => "authorization header missing"@,
                TokenError::CreatingAuthorizationHeader => "couldn't retrieve authorization header"@,
                TokenError::Unauthorized => "the authorization is invalid"@,
            }),
    {
        match self {
            TokenError::AuthorizationMalformed => "authorization malformed",
            TokenError::AuthorizationMissing => "authorization header missing",
            TokenError::CreatingAuthorizationHeader => "couldn't retrieve authorization header",
            TokenError::Unauthorized => "the authorization is invalid",
        }
    }

    /// The HTTP status of the refusal: 401, but 500 when the header name
    /// itself could not be made.
    pub fn status(&self) -> (s: u16)
        ensures
            s == (if *self == TokenError::CreatingAuthorizationHeader {
                500u16
            } else {
                401u16
            }),
    {
        match self {
            TokenError::CreatingAuthorizationHeader => 500,
            _ => 401,
        }
    }
}

/// The middleware that checks the `Authorization` header of a request
/// against the API tokens in the database.
#[derive(Debug)]
pub struct TokenValid;

impl TokenValid {
    /// First step: the credentials in the last of the request's
    /// `Authorization` header values (none given: the header is missing), or
    /// why the request is refused before the database is asked.
    pub fn credentials<'a>(&self, values: &'a Vec<String>) -> (r: Result<Auth<'a>, TokenError>)
        ensures
            values@.len() == 0 ==> r == Err::<Auth<'a>, TokenError>(TokenError::AuthorizationMissing),
            values@.len() > 0 ==> match r {
                Ok(a) => parse_credentials(encode_utf8(values@.last()@)) == Ok::<
                    (Seq<u8>, Seq<u8>),
                    AuthParseError,
                >((a.email.spec_bytes(), a.api_token.spec_bytes())) && values@.last()@
                    == credentials_header(a.email@, a.api_token@),
                Err(e) => e == TokenError::AuthorizationMalformed && parse_credentials(
                    encode_utf8(values@.last()@),
                ) is Err,
            },
    {
        let n = values.len();
        if n == 0 {
            return Err(TokenError::AuthorizationMissing);
        }
        let value: &'a str = values[n - 1].as_str();
        match Auth::try_from(value) {
            Ok(auth) => Ok(auth),
            Err(_) => Err(TokenError::AuthorizationMalformed),
        }
    }

    /// Second step: given the user that the database finds for the email and
    /// token (none when no token of that user matches), the user on whose
    /// behalf the request goes on, or the refusal.
    pub fn authorize(&self, auth: &Auth, found: Option<UserModel>) -> (r: Result<User, TokenError>)
        ensures
            found is None ==> r == Err::<User, TokenError>(TokenError::Unauthorized),
            found matches Some(row) ==> r matches Ok(user) && user.api_token@ == auth.api_token@
                && user.email == row.email && user.id == row.id,
    {
        match found {
            None => Err(TokenError::Unauthorized),
            Some(row) => Ok(User { api_token: auth.api_token.to_owned(), email: row.email, id: row.id }),
        }
    }
}

} // verus!
