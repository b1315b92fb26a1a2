//! Readings of the machine's clocks.

use chrono::Datelike;
use chrono::Local;
use chrono::Timelike;
use std::time::Instant;
use vstd::prelude::*;

verus! {

/// `std::time::Instant`, a reading of the monotonic clock, carried through opaque.
#[verifier::external_type_specification]
#[verifier::external_body]
pub struct ExInstant(Instant);

/// Calls `Instant::now`. The reading depends on the time, so nothing is stated of it.
#[verifier::external_body]
pub(crate) fn instant_now() -> Instant {
    Instant::now()
}

/// Calls `Instant::duration_since` and converts the `Duration` to whole
/// nanoseconds (`Duration::as_nanos`). std saturates to zero when `earlier` is
/// in fact the later reading. No clause ties the count to the two readings:
/// Verus sees nothing inside an `Instant`.
#[verifier::external_body]
pub(crate) fn nanos_between(later: &Instant, earlier: &Instant) -> u128 {
    later.duration_since(*earlier).as_nanos()
}

/// The hour of the local wall clock: `chrono::Local::now()` and then
/// `Timelike::hour`, which chrono documents to lie in 0 to 23. Which hour it
/// is depends on the time, so that range is all that is stated.
#[verifier::external_body]
pub(crate) fn local_hour() -> (hour: u8)
    ensures
        hour < 24,
{
    Local::now().hour() as u8
}

/// Today's local calendar day: `chrono::Local::now()`, `DateTime::date_naive`
/// and `Datelike::num_days_from_ce` (day 1 is 0001-01-01). The day depends
/// on the time, so nothing is stated of it.
#[verifier::external_body]
pub(crate) fn local_today() -> i32 {
    Local::now().date_naive().num_days_from_ce()
}

} // verus!
