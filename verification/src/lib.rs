//! A caching provider of short-lived STS credentials.
//!
//! The provider keeps at most one credential, hands it out while it stays
//! clear of its expiry by a configured margin, and otherwise asks the
//! credential issuer for a new one. Everything here is pure: the caller owns
//! the clock, the lock around the provider and the transport to the issuer.

pub mod credentials;
pub mod error;
pub mod expiry;
pub mod issuer;
pub mod laws;
pub mod model;
pub mod provider;
pub mod timestamp;

pub use crate::credentials::Credentials;
pub use crate::error::IssuerError;
pub use crate::issuer::{IssuedCredentials, IssuerRequest, IssuerResponse};
pub use crate::provider::STSCredentialsProvider;
pub use crate::timestamp::Timestamp;
