//! Identities and the authorization guard.
//!
//! Callers are identified by opaque, equality-comparable keys supplied by the
//! hosting environment (which is responsible for signature verification).
//! The guard decides whether a presented identity may perform an
//! authority-gated mutation; a single equality-based capability check
//! suffices for every operation in this crate.

use vstd::prelude::*;

verus! {

/// An opaque caller identity, as verified and supplied by the hosting
/// environment.  Two identities are the same caller exactly when their keys
/// are equal; nothing else is ever read out of them.
#[derive(Clone, Copy, PartialEq, Eq, Structural, Debug)]
pub struct Identity {
    pub key: u64,
}

/// The outcome of an authorization check.
#[derive(Clone, Copy, PartialEq, Eq, Structural, Debug)]
pub enum AuthDecision {
    Allowed,
    Denied,
}

/// Decides whether `caller` holds the authority stored in a record:
/// allowed exactly when the two identities are equal.
pub fn check_authority(stored: Identity, caller: Identity) -> (d: AuthDecision)
    ensures
        d == AuthDecision::Allowed <==> stored == caller,
{
    if stored.key == caller.key {
        AuthDecision::Allowed
    } else {
        AuthDecision::Denied
    }
}

} // verus!
