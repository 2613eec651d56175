//! The anchor pair and what is decided from it: whether a call for the time
//! can be answered from the cache, what synchronisation does next, and
//! whether a background round moves the anchor.

use vstd::prelude::*;
use crate::error::ClockError;

verus! {

/// Seconds that the background loop sleeps between two rounds.
pub const RESYNC_INTERVAL_SECS: u64 = 15;

/// The last known-good remote time and the monotonic counter reading taken
/// with it. Until the first synchronisation both are zero and mean nothing.
#[derive(Clone, Copy, Debug, PartialEq, Eq, Structural)]
pub struct SyncState {
    remote: i64,
    local: i64,
    synced: bool,
}

/// What a call for the time does.
#[derive(Clone, Copy, Debug, PartialEq, Eq, Structural)]
pub enum NowStep {
    /// The time, in nanoseconds since the epoch, projected from the anchor.
    At(i64),
    /// Never synchronised: run one consensus round and return its result.
    Resolve,
}

/// What synchronisation does next.
#[derive(Clone, Copy, Debug, PartialEq, Eq, Structural)]
pub enum SyncStep {
    /// Synchronised before this call: nothing to do and nothing to start.
    Done,
    /// Run a fresh consensus round and come back with its outcome.
    Resolve,
    /// Synchronised by this call: start the background loop.
    Anchored,
    /// The timeout passed before any round gave a time.
    TimedOut,
}

/// The time that an outcome of a round offers to synchronisation: zero
/// stands for none, as a failed round and a round not yet run do.
pub open spec fn candidate_of(last_round: Option<Result<i64, ClockError>>) -> i64 {
    match last_round {
        Some(Ok(t)) => t,
        _ => 0,
    }
}

impl SyncState {
    /// The remote timestamp of the anchor pair.
    pub closed spec fn spec_remote(&self) -> i64 {
        self.remote
    }

    /// The counter reading of the anchor pair.
    pub closed spec fn spec_local(&self) -> i64 {
        self.local
    }

    /// Whether an anchor pair has been recorded.
    pub closed spec fn spec_synced(&self) -> bool {
        self.synced
    }

    /// The anchor's remote time moved forward by the counter's advance since
    /// the anchor was taken.
    pub open spec fn projected(&self, counter: int) -> int {
        self.spec_remote() + (counter - self.spec_local())
    }

    /// The state of a process that has not synchronised yet.
    pub fn new() -> (state: SyncState)
        ensures
            !state.spec_synced(),
            state.spec_remote() == 0,
            state.spec_local() == 0,
    {
        SyncState { remote: 0, local: 0, synced: false }
    }

    /// Whether an anchor pair has been recorded.
    #[verifier::when_used_as_spec(spec_synced)]
    pub fn is_synced(&self) -> (synced: bool)
        ensures
            synced == self.spec_synced(),
    {
        self.synced
    }

    /// The remote timestamp of the anchor pair.
    #[verifier::when_used_as_spec(spec_remote)]
    pub fn remote(&self) -> (remote: i64)
        ensures
            remote == self.spec_remote(),
    {
        self.remote
    }

    /// The counter reading of the anchor pair.
    #[verifier::when_used_as_spec(spec_local)]
    pub fn local(&self) -> (local: i64)
        ensures
            local == self.spec_local(),
    {
        self.local
    }

    /// Whether the projection to `counter` is a timestamp that `i64` holds.
    pub fn projects(&self, counter: i64) -> (fits: bool)
        ensures
            fits == (i64::MIN <= self.projected(counter as int) <= i64::MAX),
    {
        let at: i128 = self.remote as i128 + (counter as i128 - self.local as i128);
        -0x8000_0000_0000_0000 <= at && at <= 0x7fff_ffff_ffff_ffff
    }

    /// The anchor's remote time moved forward to `counter`.
    pub fn project(&self, counter: i64) -> (at: i64)
        requires
            i64::MIN <= self.projected(counter as int) <= i64::MAX,
        ensures
            at == self.projected(counter as int),
    {
        let at: i128 = self.remote as i128 + (counter as i128 - self.local as i128);
        at as i64
    }

    /// Records the anchor pair of a first synchronisation.
    pub fn anchor(&mut self, remote: i64, counter: i64)
        ensures
            final(self).spec_synced(),
            final(self).spec_remote() == remote,
            final(self).spec_local() == counter,
    {
        self.synced = true;
        self.remote = remote;
        self.local = counter;
    }
}

/// What `now` must answer from a state and a counter reading.
pub open spec fn now_step_of(state: SyncState, counter: i64) -> NowStep {
    if state.spec_synced() {
        NowStep::At(state.projected(counter as int) as i64)
    } else {
        NowStep::Resolve
    }
}

/// Answers a call for the time from the cache where there is an anchor:
/// the anchor's remote time plus the counter's advance since. Without an
/// anchor it asks for one blocking consensus round, whose result is the
/// answer; that path records no anchor.
pub fn now(state: &SyncState, counter: i64) -> (step: NowStep)
    requires
        state.spec_synced() ==> i64::MIN <= state.projected(counter as int) <= i64::MAX,
    ensures
        step == now_step_of(*state, counter),
{
    if state.is_synced() {
        NowStep::At(state.project(counter))
    } else {
        NowStep::Resolve
    }
}

/// What a step of synchronisation must decide. An anchor that is there
/// already ends it at once; a time that a round gave is anchored, whatever
/// the clock says; without one, another round is run while time remains.
pub open spec fn sync_step_of(
    state: SyncState,
    last_round: Option<Result<i64, ClockError>>,
    elapsed_nanos: u128,
    timeout_nanos: u128,
) -> SyncStep {
    if state.spec_synced() {
        SyncStep::Done
    } else if candidate_of(last_round) != 0 {
        SyncStep::Anchored
    } else if elapsed_nanos < timeout_nanos {
        SyncStep::Resolve
    } else {
        SyncStep::TimedOut
    }
}

/// One step of synchronisation. `last_round` is the outcome of the round
/// that the step before asked for (`None` at the first step), `elapsed_nanos`
/// the time since synchronisation began, `counter` the monotonic counter now.
///
/// Only the step that answers `Anchored` changes the state: it records the
/// round's time and `counter` as the anchor pair.
pub fn sync(
    state: &mut SyncState,
    last_round: Option<Result<i64, ClockError>>,
    elapsed_nanos: u128,
    timeout_nanos: u128,
    counter: i64,
) -> (step: SyncStep)
    ensures
        step == sync_step_of(*old(state), last_round, elapsed_nanos, timeout_nanos),
        step != SyncStep::Anchored ==> *final(state) == *old(state),
        step == SyncStep::Anchored ==> final(state).spec_synced() && final(state).spec_remote()
            == candidate_of(last_round) && final(state).spec_local() == counter,
{
    if state.is_synced() {
        return SyncStep::Done;
    }
    let candidate: i64 = match last_round {
        Some(Ok(t)) => t,
        _ => 0,
    };
    if candidate != 0 {
        state.anchor(candidate, counter);
        SyncStep::Anchored
    } else if elapsed_nanos < timeout_nanos {
        SyncStep::Resolve
    } else {
        SyncStep::TimedOut
    }
}

/// What a step hands to the caller of synchronisation: nothing while rounds
/// are still to run, success with an anchor in place, the error without one.
pub fn sync_result(step: SyncStep) -> (result: Option<Result<(), ClockError>>)
    ensures
        result == match step {
            SyncStep::Done => Some(Ok::<(), ClockError>(())),
            SyncStep::Anchored => Some(Ok(())),
            SyncStep::TimedOut => Some(Err(ClockError::SyncTimeout)),
            SyncStep::Resolve => None,
        },
{
    match step {
        SyncStep::Done => Some(Ok(())),
        SyncStep::Anchored => Some(Ok(())),
        SyncStep::TimedOut => Some(Err(ClockError::SyncTimeout)),
        SyncStep::Resolve => None,
    }
}

/// Whether a background round moves the anchor: only a round that resolved,
/// and to a time later than the anchored one.
pub open spec fn resync_moves(state: SyncState, round: Result<i64, ClockError>) -> bool {
    round matches Ok(t) && t > state.spec_remote()
}

/// Takes the outcome of a background round. A later time than the anchored
/// one becomes the new anchor, with `counter` as its reading; a failed round
/// and an earlier or equal time leave the anchor as it is.
pub fn resync(state: &mut SyncState, round: Result<i64, ClockError>, counter: i64) -> (moved: bool)
    ensures
        moved == resync_moves(*old(state), round),
        !moved ==> *final(state) == *old(state),
        moved ==> final(state).spec_synced() == old(state).spec_synced() && round == Ok::<
            i64,
            ClockError,
        >(final(state).spec_remote()) && final(state).spec_local() == counter,
{
    match round {
        Ok(t) => {
            if t > state.remote {
                state.remote = t;
                state.local = counter;
                true
            } else {
                false
            }
        },
        Err(_) => false,
    }
}

/// Once synchronised, synchronising again changes nothing and starts
/// nothing, whatever the round, the clock and the timeout are.
pub proof fn lemma_sync_idempotent(
    state: SyncState,
    last_round: Option<Result<i64, ClockError>>,
    elapsed_nanos: u128,
    timeout_nanos: u128,
)
    requires
        state.spec_synced(),
    ensures
        sync_step_of(state, last_round, elapsed_nanos, timeout_nanos) == SyncStep::Done,
{
}

/// With an anchor in place, the time never runs backwards while the counter
/// does not: a later reading projects to a later or equal time.
pub proof fn lemma_now_monotonic(state: SyncState, earlier: i64, later: i64)
    requires
        state.spec_synced(),
        earlier <= later,
        i64::MIN <= state.projected(earlier as int),
        state.projected(later as int) <= i64::MAX,
    ensures
        now_step_of(state, earlier) matches NowStep::At(first) && now_step_of(state, later)
            matches NowStep::At(second) && first <= second,
{
}

/// After a background round has moved the anchor to `resolved`, taken at
/// `taken`, the time at any reading is `resolved` plus the counter's advance
/// since `taken`: nothing of the old anchor is left in it.
pub proof fn lemma_reanchored_projection(
    before: SyncState,
    after: SyncState,
    resolved: i64,
    taken: i64,
    counter: i64,
)
    requires
        before.spec_synced(),
        resync_moves(before, Ok(resolved)),
        after.spec_synced(),
        after.spec_remote() == resolved,
        after.spec_local() == taken,
        i64::MIN <= resolved + (counter - taken) <= i64::MAX,
    ensures
        now_step_of(after, counter) == NowStep::At((resolved + (counter - taken)) as i64),
        counter >= taken ==> resolved + (counter - taken) > before.spec_remote(),
{
}

} // verus!
