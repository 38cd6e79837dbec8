//! Instance and cell identities.
//!
//! Entities, and every reactive property cell, carry a 128-bit identity taken
//! from a freshly generated UUID.  The instance layer never looks inside an
//! id; it only stores and compares them.

use vstd::prelude::*;

verus! {

/// Relies on `uuid::Uuid::new_v4` for a randomly generated id, read out as
/// its 128-bit value.  Nothing is assumed of the result.
#[verifier::external_body]
pub fn fresh_id() -> u128 {
    uuid::Uuid::new_v4().as_u128()
}

} // verus!
