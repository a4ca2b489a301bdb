//! The engine's only window onto the machine clock. Readings are opaque:
//! nothing is promised of them, and everything built on top states what
//! holds for every possible reading.

use vstd::prelude::*;

verus! {

#[verifier::external_type_specification]
#[verifier::external_body]
pub struct ExInstant(std::time::Instant);

/// Relies on std::time::Instant::now: an opaque reading of the monotonic
/// clock. The result depends on when the call happens, so nothing is
/// promised of it.
#[verifier::external_body]
pub(crate) fn instant_now() -> std::time::Instant {
    std::time::Instant::now()
}

/// Relies on std::time::Instant::elapsed: the time since `start`, converted
/// to whole seconds. The result depends on when the call happens, so
/// nothing is promised of it.
#[verifier::external_body]
pub(crate) fn elapsed_seconds(start: &std::time::Instant) -> u64 {
    start.elapsed().as_secs()
}

} // verus!
