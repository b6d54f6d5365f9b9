//! The records exchanged between clients and authorities, and the message
//! that is signed.
use crate::crypto::{ed25519_verifies, signature_encoding_ok};
use crate::time::UtcTime;
use vstd::prelude::*;
use vstd::string::*;

verus! {

/// A signed statement by an authority that `nonce` was seen at `timestamp`.
#[derive(Clone, Debug)]
pub struct AuthenticTimestamp {
    /// The time as the authority read it.
    pub timestamp: UtcTime,
    /// The token chosen by the client.
    pub nonce: String,
    /// The authority that signed.
    pub authority_id: String,
    /// The ed25519 signature of the canonical message; empty on a rejection.
    pub signature: Vec<u8>,
}

/// A request for a timestamp over `nonce`.
#[derive(Clone, Debug)]
pub struct TimestampRequest {
    /// The client's token for this request.
    pub nonce: String,
    /// The client's signature over the nonce's bytes.
    pub client_signature: Option<Vec<u8>>,
    /// The identifier under which the client is registered.
    pub client_id: Option<String>,
}

/// An authority's answer to a request.
#[derive(Clone, Debug)]
pub struct TimestampResponse {
    pub timestamp: AuthenticTimestamp,
    pub status: TimestampStatus,
}

/// How an authority answered a request.
#[derive(Clone, Copy, Debug, PartialEq, Eq, Structural)]
pub enum TimestampStatus {
    Success,
    AuthenticationFailed,
    RateLimitExceeded,
    ServerError,
}

/// The signed text: the instant's rendering directly followed by the nonce.
pub open spec fn canonical_message(t: UtcTime, nonce: Seq<char>) -> Seq<char> {
    t.rendering() + nonce
}

/// Whether `ts` carries a parsable signature of its canonical message under `public`.
pub open spec fn timestamp_verifies(public: Seq<u8>, ts: AuthenticTimestamp) -> bool {
    signature_encoding_ok(ts.signature@) && ed25519_verifies(public, ts.message(), ts.signature@)
}

impl AuthenticTimestamp {
    pub open spec fn message(self) -> Seq<char> {
        canonical_message(self.timestamp, self.nonce@)
    }

    /// The message that the authority signed for this timestamp.
    pub fn format_message(&self) -> (r: String)
        ensures
            r@ == self.message(),
    {
        let rendered = self.timestamp.to_rfc3339();
        rendered.concat(self.nonce.as_str())
    }
}

impl TimestampRequest {
    /// An anonymous request.
    pub fn new(nonce: String) -> (r: TimestampRequest)
        ensures
            r.nonce == nonce,
            r.client_signature is None,
            r.client_id is None,
    {
        TimestampRequest { nonce, client_signature: None, client_id: None }
    }

    /// A request that names its client and carries its signature of the nonce.
    pub fn new_authenticated(nonce: String, client_id: String, signature: Vec<u8>) -> (r:
        TimestampRequest)
        ensures
            r.nonce == nonce,
            r.client_signature == Some(signature),
            r.client_id == Some(client_id),
    {
        TimestampRequest { nonce, client_signature: Some(signature), client_id: Some(client_id) }
    }
}

/// The name of a status, as a rejection reports it.
pub open spec fn status_name(s: TimestampStatus) -> Seq<char> {
    match s {
        TimestampStatus::Success => "Success"@,
        TimestampStatus::AuthenticationFailed => "AuthenticationFailed"@,
        TimestampStatus::RateLimitExceeded => "RateLimitExceeded"@,
        TimestampStatus::ServerError => "ServerError"@,
    }
}

impl TimestampStatus {
    pub fn name(&self) -> (r: String)
        ensures
            r@ == status_name(*self),
    {
        match self {
            TimestampStatus::Success => String::from_str("Success"),
            TimestampStatus::AuthenticationFailed => String::from_str("AuthenticationFailed"),
            TimestampStatus::RateLimitExceeded => String::from_str("RateLimitExceeded"),
            TimestampStatus::ServerError => String::from_str("ServerError"),
        }
    }
}

} // verus!
