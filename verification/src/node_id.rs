//! Process identity: every role instance carries a process-wide unique
//! 128-bit identifier, drawn at construction time.
use vstd::prelude::*;

verus! {

/// Relies on uuid::Uuid::new_v4, which draws a fresh version-4 UUID from the
/// operating system's randomness; uuid::Uuid::as_u128 turns it into its
/// 128-bit value. The result is random, so nothing is promised of it.
#[verifier::external_body]
pub(crate) fn fresh_uuid() -> u128 {
    uuid::Uuid::new_v4().as_u128()
}

} // verus!
