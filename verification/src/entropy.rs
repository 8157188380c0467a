//! Randomness, behind a trusted boundary.

use vstd::prelude::*;

verus! {

/// Relies on uuid's `Uuid::new_v4` (and `Uuid::as_u128`): 122 random bits
/// with six fixed version/variant bits.  The value is random, so nothing is
/// promised of it.
#[verifier::external_body]
pub(crate) fn random_u128() -> u128 {
    uuid::Uuid::new_v4().as_u128()
}

} // verus!
