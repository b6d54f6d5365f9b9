//! The failures that callers see as errors rather than as a status.
use vstd::prelude::*;

verus! {

#[verifier::external_type_specification]
#[verifier::external_body]
pub struct ExJsonError(serde_json::Error);

/// Infrastructure failures of the time service.
#[derive(Debug)]
pub enum TimeServiceError {
    /// Key or signature bytes that do not parse.
    InvalidSignature,
    /// A nonce that was seen before.
    NonceReused,
    /// A client that could not be authenticated.
    AuthenticationFailed,
    /// No key is known for the named authority.
    AuthorityNotFound(String),
    /// The authority answered with the named non-success status.
    RequestRejected(String),
    /// An encoded record that could not be read or written.
    SerializationError(serde_json::Error),
    /// Any other failure, with its message.
    Generic(String),
}

impl TimeServiceError {
    /// A generic error with the given message.
    pub fn generic(message: &str) -> (r: TimeServiceError)
        ensures
            r matches TimeServiceError::Generic(m) && m@ == message@,
    {
        TimeServiceError::Generic(message.to_owned())
    }
}

impl From<String> for TimeServiceError {
    fn from(message: String) -> (r: TimeServiceError) {
        TimeServiceError::Generic(message)
    }
}

impl vstd::std_specs::convert::FromSpecImpl<String> for TimeServiceError {
    open spec fn obeys_from_spec() -> bool {
        true
    }

    open spec fn from_spec(message: String) -> TimeServiceError {
        TimeServiceError::Generic(message)
    }
}

impl<'a> From<&'a str> for TimeServiceError {
    fn from(message: &'a str) -> (r: TimeServiceError)
        ensures
            r matches TimeServiceError::Generic(m) && m@ == message@,
    {
        TimeServiceError::Generic(message.to_owned())
    }
}

impl<'a> vstd::std_specs::convert::FromSpecImpl<&'a str> for TimeServiceError {
    open spec fn obeys_from_spec() -> bool {
        false
    }

    open spec fn from_spec(message: &'a str) -> TimeServiceError {
        TimeServiceError::Generic(choose|m: String| m@ == message@)
    }
}

} // verus!
