//! The consensus floor: the running maximum of every resolved consensus time.

use vstd::prelude::*;

verus! {

/// The larger of two timestamps.
pub open spec fn later(a: int, b: int) -> int {
    if a >= b {
        a
    } else {
        b
    }
}

/// The floor after a sequence of candidates has been offered to it in order.
pub open spec fn floor_after(start: int, candidates: Seq<i64>) -> int
    decreases candidates.len(),
{
    if candidates.len() == 0 {
        start
    } else {
        later(floor_after(start, candidates.drop_last()), candidates.last() as int)
    }
}

/// A nanosecond timestamp that never decreases.
#[derive(Clone, Copy, Debug)]
pub struct ConsensusFloor {
    value: i64,
}

impl ConsensusFloor {
    /// The timestamp currently held.
    pub closed spec fn spec_value(&self) -> int {
        self.value as int
    }

    /// A floor at zero, below every time a host can plausibly report.
    pub fn new() -> (floor: ConsensusFloor)
        ensures
            floor.spec_value() == 0,
    {
        ConsensusFloor { value: 0 }
    }

    /// The timestamp currently held.
    pub fn value(&self) -> (v: i64)
        ensures
            v == self.spec_value(),
    {
        self.value
    }

    /// Offers a candidate: the floor rises to it if the candidate is later,
    /// and the floor, risen or not, is returned.
    pub fn raise(&mut self, candidate: i64) -> (resolved: i64)
        ensures
            final(self).spec_value() == later(old(self).spec_value(), candidate as int),
            resolved == final(self).spec_value(),
    {
        if candidate > self.value {
            self.value = candidate;
        }
        self.value
    }
}

/// However many candidates are offered, in whatever order and however far
/// apart in time, the floor after all of them is no lower than it was after
/// the first `k`: no resolution is earlier than one before it.
pub proof fn lemma_floor_never_falls(start: int, candidates: Seq<i64>, k: int)
    requires
        0 <= k <= candidates.len(),
    ensures
        start <= floor_after(start, candidates.take(k)) <= floor_after(start, candidates),
    decreases candidates.len(),
{
    if k == candidates.len() {
        assert(candidates.take(k) =~= candidates);
        if k > 0 {
            lemma_floor_never_falls(start, candidates.drop_last(), k - 1);
        }
    } else {
        assert(candidates.drop_last().take(k) =~= candidates.take(k));
        lemma_floor_never_falls(start, candidates.drop_last(), k);
    }
}

/// Offering one more candidate is one more step of `floor_after`.
pub proof fn lemma_floor_after_push(start: int, candidates: Seq<i64>, candidate: i64)
    ensures
        floor_after(start, candidates.push(candidate)) == later(
            floor_after(start, candidates),
            candidate as int,
        ),
{
    assert(candidates.push(candidate).drop_last() =~= candidates);
}

} // verus!
