//! An absolute time as seconds since the epoch and nanoseconds past them,
//! and its form as a chrono `NaiveDateTime` in UTC.

use vstd::prelude::*;
use chrono::NaiveDateTime;

verus! {

#[verifier::external_type_specification]
#[verifier::external_body]
pub struct ExNaiveDateTime(NaiveDateTime);

/// The date and time, in UTC, that chrono makes of a count of seconds since
/// the epoch and of nanoseconds past that second.
pub uninterp spec fn naive_utc(secs: i64, nanos: u32) -> NaiveDateTime;

/// Builds the date and time with chrono's `NaiveDateTime::from_timestamp`,
/// which panics on seconds further than some 262,000 years from the common
/// era and on two seconds or more of nanoseconds. The bounds asked for here
/// lie well inside that: less than a second of nanoseconds, and seconds
/// within what `i64` nanoseconds span, some 292 years either way.
#[verifier::external_body]
#[allow(deprecated)]
fn naive_from_timestamp(secs: i64, nanos: u32) -> (at: NaiveDateTime)
    requires
        -9_223_372_037 <= secs <= 9_223_372_036,
        nanos < 1_000_000_000,
    ensures
        at == naive_utc(secs, nanos),
{
    NaiveDateTime::from_timestamp(secs, nanos)
}

/// A point in time with nanosecond resolution.
#[derive(Clone, Copy, Debug, PartialEq, Eq)]
pub struct Timestamp {
    secs: i64,
    nanos: u32,
}

impl Timestamp {
    #[verifier::type_invariant]
    spec fn well_formed(self) -> bool {
        &&& self.nanos < 1_000_000_000
        &&& i64::MIN <= self.secs * 1_000_000_000 + self.nanos <= i64::MAX
    }

    /// Whole seconds since the epoch, rounded towards the past.
    pub closed spec fn spec_secs(&self) -> i64 {
        self.secs
    }

    /// Nanoseconds past the whole second.
    pub closed spec fn spec_subsec_nanos(&self) -> u32 {
        self.nanos
    }

    /// Nanoseconds since the epoch.
    pub open spec fn spec_as_nanos(&self) -> int {
        self.spec_secs() * 1_000_000_000 + self.spec_subsec_nanos()
    }

    /// Splits nanoseconds since the epoch into whole seconds and the
    /// nanoseconds past them. Times before the epoch split the same way: the
    /// seconds round towards the past, the nanoseconds count forward.
    pub fn from_nanos(nanos: i64) -> (at: Timestamp)
        ensures
            at.spec_as_nanos() == nanos,
            at.spec_subsec_nanos() < 1_000_000_000,
            at.spec_secs() == nanos as int / 1_000_000_000,
            at.spec_subsec_nanos() == nanos as int % 1_000_000_000,
    {
        if nanos >= 0 {
            let secs: i64 = nanos / 1_000_000_000;
            let rest: i64 = nanos - secs * 1_000_000_000;
            Timestamp { secs, nanos: rest as u32 }
        } else {
            let back: i64 = -(nanos + 1);
            let whole: i64 = back / 1_000_000_000;
            let rest: i64 = back - whole * 1_000_000_000;
            Timestamp { secs: -whole - 1, nanos: (999_999_999 - rest) as u32 }
        }
    }

    /// Whole seconds since the epoch.
    #[verifier::when_used_as_spec(spec_secs)]
    pub fn secs(&self) -> (secs: i64)
        ensures
            secs == self.spec_secs(),
    {
        self.secs
    }

    /// Nanoseconds past the whole second.
    #[verifier::when_used_as_spec(spec_subsec_nanos)]
    pub fn subsec_nanos(&self) -> (nanos: u32)
        ensures
            nanos == self.spec_subsec_nanos(),
            nanos < 1_000_000_000,
    {
        proof {
            use_type_invariant(self);
        }
        self.nanos
    }

    /// Nanoseconds since the epoch.
    pub fn as_nanos(&self) -> (nanos: i64)
        ensures
            nanos == self.spec_as_nanos(),
    {
        proof {
            use_type_invariant(self);
        }
        let wide: i128 = self.secs as i128 * 1_000_000_000 + self.nanos as i128;
        wide as i64
    }

    /// The same point in time as a chrono `NaiveDateTime`, to be read as UTC.
    pub fn to_naive_utc(&self) -> (at: NaiveDateTime)
        ensures
            at == naive_utc(self.spec_secs(), self.spec_subsec_nanos()),
    {
        proof {
            use_type_invariant(self);
        }
        naive_from_timestamp(self.secs, self.nanos)
    }
}

} // verus!
