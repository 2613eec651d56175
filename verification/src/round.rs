//! One consensus round: wait for a quorum of observations, give up at the
//! deadline, resolve and raise the floor once the quorum is there.

use vstd::prelude::*;
use crate::consensus::{consensus_of, resolve};
use crate::error::ClockError;
use crate::floor::{later, ConsensusFloor};

verus! {

/// Observations needed before a round may resolve.
pub const QUORUM: usize = 3;

/// How long a round may wait for its quorum, in nanoseconds.
pub const ROUND_DEADLINE_NANOS: u128 = 2_000_000_000;

/// How long to sleep between two looks at the observations, in milliseconds.
pub const POLL_INTERVAL_MILLIS: u64 = 20;

/// What a round does after a look at the observations gathered so far.
#[derive(Clone, Copy, Debug, PartialEq, Eq, Structural)]
pub enum RoundStep {
    /// Too few observations yet: sleep for the poll interval and look again.
    Wait,
    /// The round resolved to this time, which is the floor from now on.
    Resolved(i64),
    /// The deadline passed without a quorum.
    Offline,
}

/// The round has reached its deadline.
pub open spec fn round_expired(elapsed_nanos: u128) -> bool {
    elapsed_nanos >= ROUND_DEADLINE_NANOS
}

/// Enough observations to resolve.
pub open spec fn has_quorum(observed: nat) -> bool {
    observed >= QUORUM
}

/// What a look at the round must answer, given the floor before it. The
/// deadline is tested first: a quorum that arrives late is not used.
pub open spec fn round_step_of(floor: int, obs: Seq<i64>, elapsed_nanos: u128) -> RoundStep {
    if round_expired(elapsed_nanos) {
        RoundStep::Offline
    } else if !has_quorum(obs.len()) {
        RoundStep::Wait
    } else {
        RoundStep::Resolved(later(floor, consensus_of(obs) as int) as i64)
    }
}

/// The floor after that look: raised to the consensus where the round
/// resolved, untouched otherwise.
pub open spec fn floor_after_round(floor: int, obs: Seq<i64>, elapsed_nanos: u128) -> int {
    if !round_expired(elapsed_nanos) && has_quorum(obs.len()) {
        later(floor, consensus_of(obs) as int)
    } else {
        floor
    }
}

/// Looks at a round `elapsed_nanos` after it began, with the observations
/// that have arrived so far, and says what to do.
pub fn poll_round(floor: &mut ConsensusFloor, observations: &Vec<i64>, elapsed_nanos: u128) -> (step:
    RoundStep)
    ensures
        step == round_step_of(old(floor).spec_value(), observations@, elapsed_nanos),
        final(floor).spec_value() == floor_after_round(
            old(floor).spec_value(),
            observations@,
            elapsed_nanos,
        ),
{
    if elapsed_nanos >= ROUND_DEADLINE_NANOS {
        RoundStep::Offline
    } else if observations.len() < QUORUM {
        RoundStep::Wait
    } else {
        let candidate = resolve(observations);
        RoundStep::Resolved(floor.raise(candidate))
    }
}

/// Without a quorum no round resolves, however many hosts were asked and
/// however long it waits; at the deadline it is offline.
pub proof fn lemma_quorum_enforced(floor: int, obs: Seq<i64>, elapsed_nanos: u128)
    requires
        obs.len() < QUORUM,
    ensures
        !(round_step_of(floor, obs, elapsed_nanos) is Resolved),
        round_expired(elapsed_nanos) ==> round_step_of(floor, obs, elapsed_nanos)
            == RoundStep::Offline,
        floor_after_round(floor, obs, elapsed_nanos) == floor,
{
}

/// Of two rounds that resolve one after the other, the second never returns
/// an earlier time than the first, whatever either observed and whatever
/// happened to the floor's owner in between but another round.
pub proof fn lemma_rounds_monotonic(
    floor: int,
    first: Seq<i64>,
    first_elapsed: u128,
    second: Seq<i64>,
    second_elapsed: u128,
)
    requires
        i64::MIN <= floor <= i64::MAX,
    ensures
        floor <= floor_after_round(floor, first, first_elapsed),
        round_step_of(floor, first, first_elapsed) matches RoundStep::Resolved(earlier) ==> earlier
            == floor_after_round(floor, first, first_elapsed) && (round_step_of(
            floor_after_round(floor, first, first_elapsed),
            second,
            second_elapsed,
        ) matches RoundStep::Resolved(later_one) ==> earlier <= later_one),
{
}

/// What a look at the round hands to the round's caller: nothing while it
/// waits, the time when it resolved, the error when it gave up.
pub fn round_result(step: RoundStep) -> (result: Option<Result<i64, ClockError>>)
    ensures
        result == match step {
            RoundStep::Wait => None::<Result<i64, ClockError>>,
            RoundStep::Resolved(t) => Some(Ok(t)),
            RoundStep::Offline => Some(Err(ClockError::Offline)),
        },
{
    match step {
        RoundStep::Wait => None,
        RoundStep::Resolved(t) => Some(Ok(t)),
        RoundStep::Offline => Some(Err(ClockError::Offline)),
    }
}

} // verus!
