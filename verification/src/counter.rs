//! The monotonic counter: nanoseconds since an instant taken at process
//! start. It only measures how far time has moved between an anchor and a
//! call; it never says what time it is.

use vstd::prelude::*;
use std::time::{Duration, Instant};

verus! {

#[verifier::external_type_specification]
#[verifier::external_body]
pub struct ExInstant(Instant);

/// std's `Instant::elapsed`: the time since `start` on the monotonic clock.
/// It differs from call to call, so nothing is claimed of it.
pub assume_specification[ Instant::elapsed ](start: &Instant) -> (since: Duration);

/// std's `Duration::as_nanos`: the whole duration in nanoseconds.
pub assume_specification[ Duration::as_nanos ](duration: &Duration) -> (nanos: u128);

/// Two to the power of 64.
pub open spec fn two_to_64() -> int {
    0x1_0000_0000_0000_0000
}

/// The counter reading that a count of nanoseconds gives: the count itself
/// while it fits, which it does for some 292 years; past that only its low
/// 64 bits are kept, read as a signed number.
pub open spec fn counter_of(nanos: int) -> int {
    let low = nanos % two_to_64();
    if low <= i64::MAX {
        low
    } else {
        low - two_to_64()
    }
}

/// Cuts a count of nanoseconds down to a counter reading.
pub fn counter_from_nanos(nanos: u128) -> (counter: i64)
    ensures
        counter == counter_of(nanos as int),
        nanos <= i64::MAX ==> counter == nanos,
{
    let low: u128 = nanos % 0x1_0000_0000_0000_0000;
    if low <= 0x7fff_ffff_ffff_ffff {
        low as i64
    } else {
        (low as i128 - 0x1_0000_0000_0000_0000) as i64
    }
}

/// Reads the monotonic counter: the nanoseconds since `start`, cut down by
/// `counter_from_nanos`. What the clock says is not known before it is read,
/// so the reading is promised nothing here.
pub fn elapsed(start: &Instant) -> (counter: i64) {
    let since = start.elapsed();
    counter_from_nanos(since.as_nanos())
}

/// While the count of nanoseconds fits, a later count reads as a later or
/// equal counter: the counter is as monotonic as the clock under it.
pub proof fn lemma_counter_monotonic(earlier: u128, later: u128)
    requires
        earlier <= later <= i64::MAX,
    ensures
        counter_of(earlier as int) <= counter_of(later as int),
        counter_of(earlier as int) == earlier,
{
}

} // verus!
