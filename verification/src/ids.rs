//! Server-generated identifiers. Users, devices and clipboard entries are
//! identified by 128-bit values drawn at random; the core only ever compares
//! them for equality.

use vstd::prelude::*;

verus! {

/// Relies on uuid's `Uuid::new_v4`: a freshly drawn version-4 identifier,
/// returned as its 128-bit value. The result is random, so nothing is
/// promised of it.
#[verifier::external_body]
pub(crate) fn fresh_id() -> u128 {
    uuid::Uuid::new_v4().as_u128()
}

} // verus!
