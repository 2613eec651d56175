//! Pairwise-interval consensus: of all pairs of observations, the two that lie
//! closest together win, and the earlier of the two is the resolved time.

use vstd::prelude::*;

verus! {

/// The interval spanned by an unordered pair of observations.
#[derive(Clone, Copy, Debug, PartialEq, Eq, Structural)]
pub struct PairwiseInterval {
    /// The earlier of the two timestamps.
    pub low: i64,
    /// The later of the two timestamps.
    pub high: i64,
    /// `high - low`; always fits, whatever the two timestamps are.
    pub width: u64,
}

/// The earlier of two timestamps.
pub open spec fn lower(a: i64, b: i64) -> i64 {
    if a <= b {
        a
    } else {
        b
    }
}

/// The later of two timestamps.
pub open spec fn higher(a: i64, b: i64) -> i64 {
    if a <= b {
        b
    } else {
        a
    }
}

/// How far apart the observations at `i` and `j` lie.
pub open spec fn gap(obs: Seq<i64>, i: int, j: int) -> int {
    higher(obs[i], obs[j]) - lower(obs[i], obs[j])
}

/// `(i, j)` names an unordered pair of distinct observations.
pub open spec fn is_pair(obs: Seq<i64>, i: int, j: int) -> bool {
    0 <= i < j < obs.len()
}

/// Pairs are considered in the order `(0, 1), (0, 2), .., (1, 2), ..`.
pub open spec fn pair_before(i: int, j: int, k: int, l: int) -> bool {
    i < k || (i == k && j < l)
}

/// `(i, j)` is the winning pair: no pair is narrower, and every pair that is
/// considered before it is strictly wider.
pub open spec fn is_narrowest(obs: Seq<i64>, i: int, j: int) -> bool {
    &&& is_pair(obs, i, j)
    &&& forall|k: int, l: int|
        is_pair(obs, k, l) ==> gap(obs, i, j) <= #[trigger] gap(obs, k, l)
    &&& forall|k: int, l: int|
        is_pair(obs, k, l) && pair_before(k, l, i, j) ==> gap(obs, i, j) < #[trigger] gap(
            obs,
            k,
            l,
        )
}

/// The interval spanned by the observations at `i` and `j`.
pub open spec fn interval_of(obs: Seq<i64>, i: int, j: int) -> PairwiseInterval {
    PairwiseInterval {
        low: lower(obs[i], obs[j]),
        high: higher(obs[i], obs[j]),
        width: gap(obs, i, j) as u64,
    }
}

/// `interval` is what the winning pair of `obs` spans.
pub open spec fn is_consensus(obs: Seq<i64>, interval: PairwiseInterval) -> bool {
    exists|i: int, j: int| #[trigger] is_narrowest(obs, i, j) && interval == interval_of(obs, i, j)
}

/// The winning pair is unique, so the consensus interval is too.
pub proof fn lemma_narrowest_unique(obs: Seq<i64>, i: int, j: int, k: int, l: int)
    requires
        is_narrowest(obs, i, j),
        is_narrowest(obs, k, l),
    ensures
        i == k,
        j == l,
{
    assert(gap(obs, i, j) <= gap(obs, k, l));
    assert(gap(obs, k, l) <= gap(obs, i, j));
    if pair_before(i, j, k, l) {
        assert(gap(obs, k, l) < gap(obs, i, j));
    }
    if pair_before(k, l, i, j) {
        assert(gap(obs, i, j) < gap(obs, k, l));
    }
}

/// Orders two timestamps and measures the distance between them.
pub fn interval_between(a: i64, b: i64) -> (interval: PairwiseInterval)
    ensures
        interval.low == lower(a, b),
        interval.high == higher(a, b),
        interval.width == higher(a, b) - lower(a, b),
{
    let (low, high) = if a > b {
        (b, a)
    } else {
        (a, b)
    };
    let width: i128 = high as i128 - low as i128;
    PairwiseInterval { low, high, width: width as u64 }
}

/// Walks every unordered pair of observations and keeps the narrowest; among
/// equally narrow pairs the first one walked stays.
pub fn narrowest_pair(observations: &Vec<i64>) -> (best: PairwiseInterval)
    requires
        observations.len() >= 2,
    ensures
        is_consensus(observations@, best),
{
    let n = observations.len();
    let mut best = interval_between(observations[0], observations[1]);
    let ghost mut bi: int = 0;
    let ghost mut bj: int = 1;
    let mut i: usize = 0;
    while i < n
        invariant
            n == observations.len(),
            n >= 2,
            i <= n,
            is_pair(observations@, bi, bj),
            best == interval_of(observations@, bi, bj),
            forall|k: int, l: int|
                is_pair(observations@, k, l) && k < i ==> gap(observations@, bi, bj)
                    <= #[trigger] gap(observations@, k, l),
            forall|k: int, l: int|
                is_pair(observations@, k, l) && pair_before(k, l, bi, bj) ==> gap(
                    observations@,
                    bi,
                    bj,
                ) < #[trigger] gap(observations@, k, l),
        decreases n - i,
    {
        let mut j: usize = i + 1;
        while j < n
            invariant
                n == observations.len(),
                n >= 2,
                i < n,
                i < j <= n,
                is_pair(observations@, bi, bj),
                best == interval_of(observations@, bi, bj),
                forall|k: int, l: int|
                    is_pair(observations@, k, l) && pair_before(k, l, i as int, j as int) ==> gap(
                        observations@,
                        bi,
                        bj,
                    ) <= #[trigger] gap(observations@, k, l),
                forall|k: int, l: int|
                    is_pair(observations@, k, l) && pair_before(k, l, bi, bj) ==> gap(
                        observations@,
                        bi,
                        bj,
                    ) < #[trigger] gap(observations@, k, l),
            decreases n - j,
        {
            let candidate = interval_between(observations[i], observations[j]);
            if candidate.width < best.width {
                best = candidate;
                proof {
                    bi = i as int;
                    bj = j as int;
                }
            }
            j += 1;
        }
        i += 1;
    }
    proof {
        assert(is_narrowest(observations@, bi, bj));
    }
    best
}

/// The time on which a set of observations agrees: the earlier timestamp of
/// its winning pair.
pub open spec fn consensus_of(obs: Seq<i64>) -> i64 {
    let (i, j) = choose|i: int, j: int| #[trigger] is_narrowest(obs, i, j);
    lower(obs[i], obs[j])
}

/// Whoever knows the winning pair knows the consensus.
pub proof fn lemma_consensus_of(obs: Seq<i64>, i: int, j: int)
    requires
        is_narrowest(obs, i, j),
    ensures
        consensus_of(obs) == lower(obs[i], obs[j]),
{
    let (k, l) = choose|k: int, l: int| #[trigger] is_narrowest(obs, k, l);
    lemma_narrowest_unique(obs, i, j, k, l);
}

/// The resolved time of a set of observations: the earlier timestamp of the
/// two that agree most closely.
pub fn resolve(observations: &Vec<i64>) -> (resolved: i64)
    requires
        observations.len() >= 2,
    ensures
        resolved == consensus_of(observations@),
        exists|i: int, j: int| #[trigger] is_narrowest(observations@, i, j),
{
    let best = narrowest_pair(observations);
    proof {
        let (i, j) = choose|i: int, j: int| #[trigger]
            is_narrowest(observations@, i, j) && best == interval_of(observations@, i, j);
        lemma_consensus_of(observations@, i, j);
    }
    best.low
}

} // verus!
