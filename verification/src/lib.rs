//! Acquisition of short-lived OAuth2 access tokens for a service account
//! through the JWT-bearer assertion flow: loading and validating the
//! service-account key, building and signing the JWT assertion, preparing
//! and interpreting the token-endpoint exchange, and caching tokens per
//! normalized scope set.

use vstd::prelude::*;

pub mod assertion;
pub mod auth;
pub mod b64;
pub mod cache;
pub mod encode;
pub mod error;
pub mod exchange;
pub mod json;
pub mod key;
pub mod sign;
pub mod text;

verus! {

/// Safety margin, in seconds, subtracted from a token's expiry so that a
/// cached token is refreshed before it is about to expire.
pub const EXPIRY_SKEW_SECS: u64 = 60;

/// Fixed lifetime, in seconds, claimed by every JWT assertion.
pub const ASSERTION_LIFETIME_SECS: u64 = 3600;

} // verus!
