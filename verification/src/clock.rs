//! Wall-clock timing of a run.

use std::time::Instant;

use vstd::prelude::*;

verus! {

#[verifier::external_type_specification]
#[verifier::external_body]
pub struct ExInstant(Instant);

/// Relies on std::time::Instant::now: a reading of the monotonic clock, taken
/// when a run starts. Nothing is assumed of it — what the clock shows is not
/// a function of the program's values.
#[verifier::external_body]
pub(crate) fn clock_now() -> Instant {
    Instant::now()
}

/// Relies on std::time::Instant::elapsed and Duration::as_millis: the whole
/// milliseconds passed since `start`. Nothing is assumed of the reading
/// beyond its unsigned type — how much time passed is not a function of the
/// program's values.
#[verifier::external_body]
pub(crate) fn clock_elapsed_ms(start: &Instant) -> u128 {
    start.elapsed().as_millis()
}

} // verus!
