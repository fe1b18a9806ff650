//! Error taxonomy of the authentication core.

use vstd::prelude::*;

verus! {

/// Everything that can go wrong while acquiring, revoking or injecting
/// credentials.
#[derive(Clone, Copy, Debug, PartialEq, Eq, Structural)]
pub enum AuthError {
    /// Network-level failure reaching the platform (DNS, connection,
    /// timeout).  Never retried inside the core.
    Transport,
    /// Non-success HTTP status from the token-exchange or revocation
    /// endpoint; carries the status code.
    HttpStatus(u16),
    /// Malformed or unexpected JSON in the token-exchange response.
    Decode,
    /// `logout` or header injection was requested while no token is held.
    Precondition,
}

/// An HTTP status counts as success exactly when it lies in the 2xx range.
pub open spec fn spec_status_success(status: u16) -> bool {
    200 <= status < 300
}

/// Runtime test matching `spec_status_success`.
pub fn status_success(status: u16) -> (r: bool)
    ensures
        r == spec_status_success(status),
{
    200 <= status && status < 300
}

} // verus!
