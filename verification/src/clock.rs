//! Monotonic time stamps for the transfer statistics. Readings of the clock
//! depend on when the calls run, so nothing is stated of their values.
use vstd::prelude::*;
use std::time::Duration;
use std::time::Instant;

verus! {

/// A reading of the monotonic clock.
#[verifier::external_type_specification]
#[verifier::external_body]
pub struct ExInstant(std::time::Instant);

/// `Instant::now`: the current reading of the monotonic clock. Nothing is
/// stated of it.
#[verifier::external_body]
pub(crate) fn monotonic_now() -> (r: Instant) {
    Instant::now()
}

/// `Instant::elapsed`: the time since `start`. Nothing is stated of it.
#[verifier::external_body]
pub(crate) fn elapsed_since(start: &Instant) -> (r: Duration) {
    start.elapsed()
}

/// `Duration::as_millis`: the whole milliseconds in `d`. Nothing is stated
/// of it, as `Duration` is opaque here.
#[verifier::external_body]
pub(crate) fn whole_millis(d: &Duration) -> (r: u128) {
    d.as_millis()
}

/// Milliseconds since `start`.
pub(crate) fn millis_since(start: &Instant) -> (r: u128) {
    let d = elapsed_since(start);
    whole_millis(&d)
}

} // verus!
