//! The monotonic clock, delegated to std.
//!
//! What the clock answers depends on the machine and the moment, so nothing
//! is claimed of these results; the processing loop states what holds of its
//! own state whatever values come back.

use vstd::prelude::*;

verus! {

#[verifier::external_type_specification]
#[verifier::external_body]
pub struct ExInstant(std::time::Instant);

/// Relies on std::time::Instant::now: a reading of the monotonic clock.
#[verifier::external_body]
pub(crate) fn instant_now() -> std::time::Instant {
    std::time::Instant::now()
}

/// Relies on std::time::Instant::elapsed: the time since `start`, converted
/// to whole nanoseconds (truncated to a u64, which spans centuries).
#[verifier::external_body]
pub(crate) fn elapsed_ns_since(start: &std::time::Instant) -> u64 {
    let d = start.elapsed();
    d.as_nanos() as u64
}

} // verus!
