//! Types of std and of outside crates that the library's types carry as fields.
use vstd::prelude::*;

verus! {

/// `std::io::Error`, carried as the cause of I/O failures.
#[verifier::external_type_specification]
#[verifier::external_body]
pub struct ExIoError(std::io::Error);

/// `std::path::PathBuf`, carried as the path of a directory that could not be created.
#[verifier::external_type_specification]
#[verifier::external_body]
pub struct ExPathBuf(std::path::PathBuf);

/// `serde_json::Error`, carried as the cause of JSON failures.
#[verifier::external_type_specification]
#[verifier::external_body]
pub struct ExJsonError(serde_json::Error);

/// `isahc::Error`, carried as the cause of HTTP client failures.
#[verifier::external_type_specification]
#[verifier::external_body]
pub struct ExIsahcError(isahc::Error);

/// `isahc::http::Error`, carried as the cause of request building failures.
#[verifier::external_type_specification]
#[verifier::external_body]
pub struct ExHttpError(isahc::http::Error);

/// `envy::Error`, carried as the cause of configuration failures.
#[verifier::external_type_specification]
#[verifier::external_body]
pub struct ExEnvyError(envy::Error);

/// `r2d2::Error`, carried as the cause of database pool failures.
#[verifier::external_type_specification]
#[verifier::external_body]
pub struct ExR2d2Error(r2d2::Error);

} // verus!
