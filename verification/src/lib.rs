//! Authentication core for a Reddit-style REST client.
//!
//! The crate models the pluggable authentication strategies (anonymous and
//! OAuth password grant), their token lifecycle (acquisition, expiry
//! detection, revocation) and the header-injection contract that every
//! outbound API call relies on.  Network transport is left to the caller:
//! each strategy describes the HTTP request it needs and consumes the
//! outcome of that request as a plain value, so the whole decision logic is
//! verified.

pub mod auth;
pub mod encode;
pub mod error;
pub mod headers;
pub mod user;

pub use error::AuthError;
