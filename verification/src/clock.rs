//! The wall clock, as far as timing a piece of work needs it.

use std::time::Duration;
use std::time::Instant;
use vstd::prelude::*;

verus! {

/// std's `Instant`: a reading of the monotonic clock, carried as an opaque
/// value.
#[verifier::external_type_specification]
#[verifier::external_body]
pub struct ExInstant(Instant);

/// Calls `Instant::now`: the current reading of the monotonic clock. Every
/// reading is possible.
#[verifier::external_body]
pub(crate) fn now() -> Instant {
    Instant::now()
}

/// Calls `Instant::elapsed`: the time that has passed since `start` was
/// read. Every duration is possible.
#[verifier::external_body]
pub(crate) fn elapsed_since(start: &Instant) -> Duration {
    start.elapsed()
}

} // verus!
