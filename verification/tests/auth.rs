use leaves::api::common::auth::{Auth, AuthParseError};

#[test]
fn test_not_basic() {
    assert_eq!(
        AuthParseError::NotBasic,
        Auth::try_from("Bearer foo/token:baz").unwrap_err(),
    );
}

#[test]
fn test_email_missing() {
    assert_eq!(
        AuthParseError::EmailMissing,
        Auth::try_from(format!("Basic /token:{}", "a".repeat(50)).as_ref()).unwrap_err(),
    );
}

#[test]
fn test_valid() -> Result<(), AuthParseError> {
    Auth::try_from(format!("Basic foo/token:{}", "a".repeat(50)).as_ref())?;

    Ok(())
}

#[test]
fn auth_reads_email_and_token() {
    let token = "b".repeat(50);
    let header = format!("Basic vivian@hellyer.dev/token:{}", token);
    let auth = Auth::try_from(header.as_str()).unwrap();
    assert_eq!(auth.email, "vivian@hellyer.dev");
    assert_eq!(auth.api_token, token.as_str());
}

#[test]
fn auth_keeps_spaces_and_non_ascii_in_email() {
    let token = "c".repeat(50);
    let header = format!("Basic é x/token:{}", token);
    let auth = Auth::try_from(header.as_str()).unwrap();
    assert_eq!(auth.email, "é x");
    assert_eq!(auth.api_token, token.as_str());
}

#[test]
fn auth_scheme_must_be_followed_by_a_space() {
    assert_eq!(Auth::try_from("Basic").unwrap_err(), AuthParseError::NotBasic);
    assert_eq!(Auth::try_from("basic a/token:b").unwrap_err(), AuthParseError::NotBasic);
    assert_eq!(Auth::try_from("").unwrap_err(), AuthParseError::NotBasic);
}

#[test]
fn auth_needs_exactly_one_marker() {
    assert_eq!(Auth::try_from("Basic foo").unwrap_err(), AuthParseError::ValueInvalid);
    assert_eq!(Auth::try_from("Basic ").unwrap_err(), AuthParseError::ValueInvalid);
    let two = format!("Basic a/token:b/token:{}", "a".repeat(42));
    assert_eq!(Auth::try_from(two.as_str()).unwrap_err(), AuthParseError::ValueInvalid);
}

#[test]
fn auth_token_must_be_fifty_bytes() {
    let short = format!("Basic foo/token:{}", "a".repeat(49));
    assert_eq!(Auth::try_from(short.as_str()).unwrap_err(), AuthParseError::ApiTokenInvalid);
    let long = format!("Basic foo/token:{}", "a".repeat(51));
    assert_eq!(Auth::try_from(long.as_str()).unwrap_err(), AuthParseError::ApiTokenInvalid);
    // 25 two-byte characters are 50 bytes.
    let wide = format!("Basic foo/token:{}", "é".repeat(25));
    assert!(Auth::try_from(wide.as_str()).is_ok());
}

#[test]
fn auth_values_compare_by_fields() {
    let header = format!("Basic foo/token:{}", "a".repeat(50));
    let a = Auth::try_from(header.as_str()).unwrap();
    let b = Auth { api_token: &header[16..], email: "foo" };
    assert_eq!(a, b);
}
