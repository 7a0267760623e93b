//! What the API client sends for each of its calls, and how it reads the
//! status of the answer.
use vstd::prelude::*;
use vstd::string::*;
use crate::http_client::config::{authorization_of, Config};
use crate::http_client::error::ClientError;

verus! {

/// The calls that the client makes.
pub enum Endpoint {
    /// Information about the file with the given id.
    FileInfo(String),
    /// The signed-in user.
    Me,
    /// Creating a user.
    Signup,
    /// Storing a file.
    Upload,
    /// The API tokens of the signed-in user.
    UserApiTokens,
}

/// The path, below the API's URL, of each call.
pub open spec fn endpoint_path(e: Endpoint) -> Seq<char> {
    match e {
        Endpoint::FileInfo(id) => "files/"@ + id@,
        Endpoint::Me => "users/@me"@,
        Endpoint::Signup => "users"@,
        Endpoint::Upload => "files"@,
        Endpoint::UserApiTokens => "users/@me/api-tokens"@,
    }
}

/// Law: the path that asks about a file is `files/` followed by the file's
/// id exactly as given: removing the six characters of `files/` gives the
/// id back, so two different ids never ask for the same path.
pub proof fn law_file_info_path_keeps_the_id(id: String, other: String)
    ensures
        endpoint_path(Endpoint::FileInfo(id)).len() == 6 + id@.len(),
        endpoint_path(Endpoint::FileInfo(id)).subrange(0, 6) == seq!['f', 'i', 'l', 'e', 's', '/'],
        endpoint_path(Endpoint::FileInfo(id)).skip(6) == id@,
        endpoint_path(Endpoint::FileInfo(id)) == endpoint_path(Endpoint::FileInfo(other)) ==> id@ == other@,
{
    reveal_strlit("files/");
    let p = endpoint_path(Endpoint::FileInfo(id));
    let q = endpoint_path(Endpoint::FileInfo(other));
    assert(p.subrange(0, 6) =~= seq!['f', 'i', 'l', 'e', 's', '/']);
    assert(p.skip(6) =~= id@);
    assert(q.skip(6) =~= other@);
}

/// Whether a call carries the configured credentials.
pub open spec fn endpoint_sends_auth(e: Endpoint) -> bool {
    match e {
        Endpoint::Me | Endpoint::Upload => true,
        _ => false,
    }
}

impl Endpoint {
    /// The path of the call below the API's URL.
    pub fn path(&self) -> (p: String)
        ensures
            p@ == endpoint_path(*self),
    {
        match self {
            Endpoint::FileInfo(id) => {
                let mut path = String::from_str("files/");
                path.append(id.as_str());
                path
            },
            Endpoint::Me => String::from_str("users/@me"),
            Endpoint::Signup => String::from_str("users"),
            Endpoint::Upload => String::from_str("files"),
            Endpoint::UserApiTokens => String::from_str("users/@me/api-tokens"),
        }
    }

    /// Whether the call carries the configured credentials.
    pub fn sends_auth(&self) -> (b: bool)
        ensures
            b == endpoint_sends_auth(*self),
    {
        match self {
            Endpoint::Me | Endpoint::Upload => true,
            _ => false,
        }
    }
}

/// The URI of a call: the API's URL, `/`, and the call's path.
pub fn request_uri(config: &Config, path: &str) -> (uri: String)
    ensures
        uri@ == config.api_url@ + "/"@ + path@,
{
    let mut uri = config.api_url.clone();
    uri.append("/");
    uri.append(path);
    uri
}

/// The `Authorization` header value that a call carries: the configured
/// credentials when the call asks for them and both are configured.
pub fn request_authorization(config: &Config, auth: bool) -> (header: Option<String>)
    ensures
        match header {
            Some(h) => auth && authorization_of(config.api_token, config.email) == Some(h@),
            None => !auth || authorization_of(config.api_token, config.email) is None,
        },
{
    if auth {
        config.auth()
    } else {
        None
    }
}

/// What an answer's status says before its body is read: 404, 401 and 500
/// are failures, anything else goes on to the body.
pub fn response_status_error(status: u16) -> (e: Option<ClientError>)
    ensures
        status == 404 <==> e matches Some(ClientError::NotFound),
        status == 401 <==> e matches Some(ClientError::Unauthorized),
        status == 500 <==> e matches Some(ClientError::InternalServerError),
        e is None <==> (status != 404 && status != 401 && status != 500),
{
    if status == 404 {
        Some(ClientError::NotFound)
    } else if status == 401 {
        Some(ClientError::Unauthorized)
    } else if status == 500 {
        Some(ClientError::InternalServerError)
    } else {
        None
    }
}

} // verus!
