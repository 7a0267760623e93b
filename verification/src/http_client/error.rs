//! Why a call of the API failed.
use vstd::prelude::*;

verus! {

/// Why a call of the API failed.
#[derive(Debug)]
pub enum ClientError {
    BuildingHttpClient { source: isahc::Error },
    BuildingRequest { source: isahc::http::Error },
    CopyingResponseBody { source: std::io::Error },
    DeserializingBody { contents: Vec<u8>, source: serde_json::Error },
    InternalServerError,
    NotFound,
    ResourceAlreadyExists,
    SendingRequest { source: isahc::Error },
    Unauthorized,
}

/// The text that describes an error of the client.
pub open spec fn client_error_message(e: ClientError) -> Seq<char> {
    match e {
        ClientError::BuildingHttpClient { .. } => "failed to construct isahc http client"@,
        ClientError::BuildingRequest { .. } => "failed to construct the http request"@,
        ClientError::CopyingResponseBody { .. } => "failed to copy body out of response"@,
        ClientError::DeserializingBody { .. } => "failed to deserialize the response body as json"@,
        ClientError::InternalServerError => "server encountered an error"@,
        ClientError::NotFound => "resource not found"@,
        ClientError::ResourceAlreadyExists => "a resource with that information already exists"@,
        ClientError::SendingRequest { .. } => "failed to send the request or receive the response"@,
        ClientError::Unauthorized => "not authorized to perform request"@,
    }
}

impl ClientError {
    /// The text that describes the error.
    pub fn message(&self) -> (m: &'static str)
        ensures
            m@ == client_error_message(*self),
    {
        match self {
            ClientError::BuildingHttpClient { .. } => "failed to construct isahc http client",
            ClientError::BuildingRequest { .. } => "failed to construct the http request",
            ClientError::CopyingResponseBody { .. } => "failed to copy body out of response",
            ClientError::DeserializingBody { .. } => "failed to deserialize the response body as json",
            ClientError::InternalServerError => "server encountered an error",
            ClientError::NotFound => "resource not found",
            ClientError::ResourceAlreadyExists => "a resource with that information already exists",
            ClientError::SendingRequest { .. } => "failed to send the request or receive the response",
            ClientError::Unauthorized => "not authorized to perform request",
        }
    }
}

} // verus!
