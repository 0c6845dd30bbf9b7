//! The errors of the SDK.

use vstd::prelude::*;
use vstd::std_specs::convert::FromSpecImpl;

verus! {

/// `reqwest::Error`, the cause of a failure of the transport. It is carried
/// through to the caller.
#[verifier::external_type_specification]
#[verifier::external_body]
pub struct ExTransportError(reqwest::Error);

/// Errors that can occur when using the Wusul SDK.
#[derive(Debug)]
pub enum WusulError {
    /// The request did not reach a response: the transport failed.
    HttpError(reqwest::Error),
    /// The API answered with a status that has no variant of its own.
    ApiError { status: u16, message: String },
    /// JSON could not be written or read.
    SerializationError(serde_json::Error),
    /// The configuration is not usable.
    ConfigError(String),
    /// The API refused the credentials.
    AuthError(String),
    /// A parameter cannot be sent.
    InvalidParameter(String),
    /// The resource does not exist.
    NotFound(String),
    /// Too many requests.
    RateLimitExceeded,
    /// The API gave up waiting for the request.
    Timeout,
}

impl From<serde_json::Error> for WusulError {
    fn from(error: serde_json::Error) -> (out: WusulError) {
        WusulError::SerializationError(error)
    }
}

impl FromSpecImpl<serde_json::Error> for WusulError {
    open spec fn obeys_from_spec() -> bool {
        true
    }

    open spec fn from_spec(error: serde_json::Error) -> WusulError {
        WusulError::SerializationError(error)
    }
}

impl From<reqwest::Error> for WusulError {
    fn from(error: reqwest::Error) -> (out: WusulError) {
        WusulError::HttpError(error)
    }
}

impl FromSpecImpl<reqwest::Error> for WusulError {
    open spec fn obeys_from_spec() -> bool {
        true
    }

    open spec fn from_spec(error: reqwest::Error) -> WusulError {
        WusulError::HttpError(error)
    }
}

} // verus!
