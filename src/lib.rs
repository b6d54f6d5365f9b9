//! Authentic timestamps: an authority signs `rfc3339(time) ‖ nonce` with an
//! ed25519 key, and any holder of its public key can check the result.
pub mod authority;
pub mod client;
pub mod crypto;
pub mod error;
pub mod laws;
pub mod models;
pub mod service;
pub mod time;
pub mod trust;

pub use authority::{TimeAuthority, TimeAuthorityImpl};
pub use client::TimeClient;
pub use crypto::{KeyPair, VerifyingKey};
pub use error::TimeServiceError;
pub use models::{AuthenticTimestamp, TimestampRequest, TimestampResponse, TimestampStatus};
pub use service::TspTimeService;
pub use time::UtcTime;
