//! The kinds of failure of the client.

use vstd::prelude::*;
use vstd::std_specs::convert::FromSpecImpl;

verus! {

/// The error of the HTTP transport. Nothing is known of what it holds.
#[verifier::external_type_specification]
#[verifier::external_body]
pub struct ExRequestError(reqwest::Error);

/// The error of a local file operation. Nothing is known of what it holds.
#[verifier::external_type_specification]
#[verifier::external_body]
pub struct ExIoError(std::io::Error);

/// The error of reading or writing JSON. Nothing is known of what it holds.
#[verifier::external_type_specification]
#[verifier::external_body]
pub struct ExJsonError(serde_json::Error);

/// Every way in which an operation of the client can fail.
#[derive(Debug)]
pub enum B2Error {
    /// The transport failed: no connection, no name, no TLS, a timeout.
    RequestError(reqwest::Error),
    /// A local file could not be read.
    FileError(std::io::Error),
    /// The service refused the credentials.
    AuthError(String),
    /// A configuration value is missing; the text names it.
    ConfigError(String),
    /// The upload endpoint answered with a status outside the success range.
    UploadError { status_code: u16, message: String },
    /// A body was not JSON, or not JSON of the expected shape.
    JsonError(serde_json::Error),
}

impl From<reqwest::Error> for B2Error {
    fn from(error: reqwest::Error) -> (r: B2Error) {
        B2Error::RequestError(error)
    }
}

impl FromSpecImpl<reqwest::Error> for B2Error {
    open spec fn obeys_from_spec() -> bool {
        true
    }

    open spec fn from_spec(error: reqwest::Error) -> B2Error {
        B2Error::RequestError(error)
    }
}

impl From<std::io::Error> for B2Error {
    fn from(error: std::io::Error) -> (r: B2Error) {
        B2Error::FileError(error)
    }
}

impl FromSpecImpl<std::io::Error> for B2Error {
    open spec fn obeys_from_spec() -> bool {
        true
    }

    open spec fn from_spec(error: std::io::Error) -> B2Error {
        B2Error::FileError(error)
    }
}

impl From<serde_json::Error> for B2Error {
    fn from(error: serde_json::Error) -> (r: B2Error) {
        B2Error::JsonError(error)
    }
}

impl FromSpecImpl<serde_json::Error> for B2Error {
    open spec fn obeys_from_spec() -> bool {
        true
    }

    open spec fn from_spec(error: serde_json::Error) -> B2Error {
        B2Error::JsonError(error)
    }
}

} // verus!
