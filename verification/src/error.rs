//! What can go wrong: one host failing, a round without quorum, a
//! synchronisation that ran out of time.

use vstd::prelude::*;

verus! {

/// Why a single host gave no observation. The resolver treats all of these
/// alike: the observation is missing.
#[derive(Clone, Copy, Debug, PartialEq, Eq, Structural)]
pub enum FetchError {
    /// The request failed or timed out.
    Unreachable,
    /// The response carried no `Date` header.
    MissingDate,
    /// The `Date` header is not an RFC 2822 date whose time fits in
    /// nanoseconds.
    UnparsableDate,
}

/// The failures that reach a caller.
#[derive(Clone, Copy, Debug, PartialEq, Eq, Structural)]
pub enum ClockError {
    /// A round ended at its deadline with fewer observations than the quorum.
    Offline,
    /// Synchronisation reached its timeout before any round resolved.
    SyncTimeout,
}

impl FetchError {
    /// A short description for logs and error values.
    pub fn message(&self) -> (text: &'static str)
        ensures
            text@ == match *self {
                FetchError::Unreachable => "request failed"@,
                FetchError::MissingDate => "missing date header"@,
                FetchError::UnparsableDate => "unparsable date header"@,
            },
    {
        match self {
            FetchError::Unreachable => "request failed",
            FetchError::MissingDate => "missing date header",
            FetchError::UnparsableDate => "unparsable date header",
        }
    }
}

impl ClockError {
    /// A short description for logs and error values.
    pub fn message(&self) -> (text: &'static str)
        ensures
            text@ == "Internet offline"@,
    {
        match self {
            ClockError::Offline => "Internet offline",
            ClockError::SyncTimeout => "Internet offline",
        }
    }
}

} // verus!
