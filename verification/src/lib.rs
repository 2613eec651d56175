//! Consensus wall-clock time from the `Date` headers of independent HTTP hosts.
//!
//! The crate holds the decisions and arithmetic of the clock: parsing a header
//! into nanoseconds, choosing the two closest observations, keeping the result
//! from ever moving backwards, and projecting the last anchor forward by a
//! monotonic counter. Network requests, threads and sleeping are left to the
//! caller, which feeds their outcomes to the functions here.

pub mod anchor;
pub mod consensus;
pub mod counter;
pub mod error;
pub mod floor;
pub mod header;
pub mod hosts;
pub mod round;
pub mod timestamp;
