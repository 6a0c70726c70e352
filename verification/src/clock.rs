//! Readings of the monotonic clock. Nothing is known of a reading but that
//! it was taken: the functions that use them say what holds whatever the
//! clock gave.
use vstd::prelude::*;

use std::time::{Duration, Instant};

verus! {

/// `std::time::Instant`, carried as an opaque value.
#[verifier::external_type_specification]
#[verifier::external_body]
pub struct ExInstant(Instant);

/// Reads the monotonic clock (`Instant::now`).
#[verifier::external_body]
pub(crate) fn now() -> (t: Instant) {
    Instant::now()
}

/// The time from `earlier` to `later`, zero where `later` is not after it
/// (`Instant::saturating_duration_since`).
#[verifier::external_body]
pub(crate) fn saturating_duration_since(later: Instant, earlier: Instant) -> (d: Duration) {
    later.saturating_duration_since(earlier)
}

/// The whole nanoseconds of a duration (`Duration::as_nanos`).
#[verifier::external_body]
pub(crate) fn whole_nanos(d: Duration) -> (ns: u128) {
    d.as_nanos()
}

/// Whether `now` is at or after `deadline` (`Instant`'s `>=`).
#[verifier::external_body]
pub(crate) fn reached(now: Instant, deadline: Instant) -> (b: bool) {
    now >= deadline
}

} // verus!
