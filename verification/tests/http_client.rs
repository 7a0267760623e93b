use leaves::api::common::auth::Auth;
use leaves::http_client::client::{request_authorization, request_uri, response_status_error, Endpoint};
use leaves::http_client::config::Config;
use leaves::http_client::error::ClientError;

fn full_config() -> Config {
    Config::new(Some("t".repeat(50)), "https://leaves.example".to_string(), Some("me@example.com".to_string()))
}

#[test]
fn config_auth_builds_basic_header() {
    assert_eq!(full_config().auth().unwrap(), format!("Basic me@example.com/token:{}", "t".repeat(50)));
}

#[test]
fn config_auth_needs_token_and_email() {
    let no_token = Config::new(None, "u".to_string(), Some("e".to_string()));
    assert_eq!(no_token.auth(), None);
    let no_email = Config::new(Some("t".to_string()), "u".to_string(), None);
    assert_eq!(no_email.auth(), None);
}

#[test]
fn client_header_is_read_back_by_api() {
    let header = full_config().auth().unwrap();
    let auth = Auth::try_from(header.as_str()).unwrap();
    assert_eq!(auth.email, "me@example.com");
    assert_eq!(auth.api_token, "t".repeat(50));
}

#[test]
fn request_uri_joins_with_slash() {
    assert_eq!(request_uri(&full_config(), "users/@me"), "https://leaves.example/users/@me");
}

#[test]
fn request_authorization_only_when_asked() {
    let config = full_config();
    assert_eq!(request_authorization(&config, false), None);
    assert_eq!(request_authorization(&config, true), config.auth());
}

#[test]
fn endpoints_paths_and_auth() {
    assert_eq!(Endpoint::FileInfo("abc123".to_string()).path(), "files/abc123");
    assert_eq!(Endpoint::Me.path(), "users/@me");
    assert_eq!(Endpoint::Signup.path(), "users");
    assert_eq!(Endpoint::Upload.path(), "files");
    assert_eq!(Endpoint::UserApiTokens.path(), "users/@me/api-tokens");
    assert!(Endpoint::Me.sends_auth());
    assert!(Endpoint::Upload.sends_auth());
    assert!(!Endpoint::Signup.sends_auth());
    assert!(!Endpoint::UserApiTokens.sends_auth());
    assert!(!Endpoint::FileInfo("x".to_string()).sends_auth());
}

#[test]
fn status_codes_that_fail() {
    assert!(matches!(response_status_error(404), Some(ClientError::NotFound)));
    assert!(matches!(response_status_error(401), Some(ClientError::Unauthorized)));
    assert!(matches!(response_status_error(500), Some(ClientError::InternalServerError)));
    assert!(response_status_error(200).is_none());
    assert!(response_status_error(409).is_none());
}

#[test]
fn client_error_messages() {
    assert_eq!(ClientError::NotFound.message(), "resource not found");
    assert_eq!(ClientError::Unauthorized.message(), "not authorized to perform request");
    assert_eq!(ClientError::InternalServerError.message(), "server encountered an error");
    assert_eq!(ClientError::ResourceAlreadyExists.message(), "a resource with that information already exists");
}
