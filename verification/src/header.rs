//! The `Date` header of a response, read as nanoseconds since the epoch.
//!
//! The header carries whole seconds only, so every timestamp that comes out
//! of here is a whole number of seconds: hosts are compared at a resolution of
//! one second, however fine the unit.

use vstd::prelude::*;
use chrono::DateTime;
use crate::error::FetchError;

verus! {

/// Nanoseconds in one second.
pub const NANOS_PER_SEC: i64 = 1_000_000_000;

/// What chrono reads from a header: `None` where it is no RFC 2822 date,
/// else the whole seconds since the epoch and the nanoseconds past them.
pub uninterp spec fn rfc2822_reading(date: Seq<char>) -> Option<(i64, u32)>;

/// Parses `date` with chrono's `DateTime::parse_from_rfc2822` and reads the
/// result with `timestamp` and `timestamp_subsec_nanos`. Nothing is claimed
/// of which strings parse or to what: the reading is only given its name.
#[verifier::external_body]
fn read_rfc2822(date: &str) -> (reading: Option<(i64, u32)>)
    ensures
        reading == rfc2822_reading(date@),
{
    match DateTime::parse_from_rfc2822(date) {
        Ok(parsed) => Some((parsed.timestamp(), parsed.timestamp_subsec_nanos())),
        Err(_) => None,
    }
}

/// The timestamp of a reading: its seconds and the seconds that its
/// nanoseconds make up, in nanoseconds. A reading with a fraction of a second
/// is no header date, and one past what `i64` holds has no timestamp.
pub open spec fn reading_nanos(secs: i64, subsec: u32) -> Option<i64> {
    let nanos = secs * NANOS_PER_SEC + subsec;
    if subsec as int % NANOS_PER_SEC as int == 0 && i64::MIN <= nanos <= i64::MAX {
        Some(nanos as i64)
    } else {
        None
    }
}

/// The timestamp that a header stands for, if any.
pub open spec fn header_nanos(date: Seq<char>) -> Option<i64> {
    match rfc2822_reading(date) {
        Some((secs, subsec)) => reading_nanos(secs, subsec),
        None => None,
    }
}

/// Turns a reading into nanoseconds since the epoch.
pub fn nanos_of_reading(secs: i64, subsec: u32) -> (nanos: Option<i64>)
    ensures
        nanos == reading_nanos(secs, subsec),
{
    if subsec % 1_000_000_000 != 0 {
        return None;
    }
    let wide: i128 = secs as i128 * 1_000_000_000 + subsec as i128;
    if wide < -0x8000_0000_0000_0000 || wide > 0x7fff_ffff_ffff_ffff {
        None
    } else {
        Some(wide as i64)
    }
}

/// Parses a `Date` header into nanoseconds since the epoch.
pub fn parse_date(date: &str) -> (nanos: Option<i64>)
    ensures
        nanos == header_nanos(date@),
{
    match read_rfc2822(date) {
        Some((secs, subsec)) => nanos_of_reading(secs, subsec),
        None => None,
    }
}

/// What a response gives for its host: the header's timestamp, or why
/// there is none.
pub open spec fn observation_of(date: Option<Seq<char>>) -> Result<i64, FetchError> {
    match date {
        None => Err(FetchError::MissingDate),
        Some(text) => match header_nanos(text) {
            Some(nanos) => Ok(nanos),
            None => Err(FetchError::UnparsableDate),
        },
    }
}

/// The view of a header that may be missing.
pub open spec fn header_view(date: Option<&str>) -> Option<Seq<char>> {
    match date {
        Some(text) => Some(text@),
        None => None,
    }
}

/// Takes the `Date` header of a successful response, or `None` where the
/// response had none, and gives the host's observation.
pub fn observe(date: Option<&str>) -> (observation: Result<i64, FetchError>)
    ensures
        observation == observation_of(header_view(date)),
{
    match date {
        None => Err(FetchError::MissingDate),
        Some(text) => match parse_date(text) {
            Some(nanos) => Ok(nanos),
            None => Err(FetchError::UnparsableDate),
        },
    }
}

/// A timestamp read from a header has no sub-second part, and cut down to
/// seconds it is the reading's second count.
pub proof fn lemma_header_whole_seconds(date: Seq<char>)
    requires
        header_nanos(date) is Some,
    ensures
        header_nanos(date)->0 as int % NANOS_PER_SEC as int == 0,
        rfc2822_reading(date) matches Some((secs, subsec)) && header_nanos(date)->0 as int
            / NANOS_PER_SEC as int == secs + subsec as int / NANOS_PER_SEC as int,
{
    let (secs, subsec) = rfc2822_reading(date)->0;
    let whole = subsec as int / NANOS_PER_SEC as int;
    assert(subsec as int == whole * 1_000_000_000);
    assert(secs * NANOS_PER_SEC + subsec == (secs + whole) * 1_000_000_000);
}

} // verus!
