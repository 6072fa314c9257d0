//! Stable-compaction arithmetic.
//!
//! Both the grid's empty-cell reclaim and the particle set's
//! failed-particle removal keep the surviving elements in their original
//! relative order. Their contracts are stated with one counting function:
//! the number of kept elements among a prefix, which is exactly the new
//! index every survivor moves to.

use vstd::prelude::*;

verus! {

/// Number of `true` flags among the first `i` entries.
pub open spec fn spec_count_kept(keep: Seq<bool>, i: int) -> int
    decreases i,
{
    if i <= 0 {
        0
    } else {
        spec_count_kept(keep, i - 1) + if keep[i - 1] {
            1int
        } else {
            0int
        }
    }
}

/// The count over a prefix stays between zero and the prefix length.
pub proof fn lemma_count_kept_bounds(keep: Seq<bool>, i: int)
    requires
        0 <= i,
    ensures
        0 <= spec_count_kept(keep, i) <= i,
    decreases i,
{
    if i > 0 {
        lemma_count_kept_bounds(keep, i - 1);
    }
}

/// The count never decreases as the prefix grows, and grows at most by
/// the number of added entries.
pub proof fn lemma_count_kept_monotone(keep: Seq<bool>, a: int, b: int)
    requires
        0 <= a <= b,
    ensures
        spec_count_kept(keep, a) <= spec_count_kept(keep, b) <= spec_count_kept(keep, a) + (b
            - a),
    decreases b - a,
{
    if a < b {
        lemma_count_kept_monotone(keep, a, b - 1);
    }
}

/// Every new index below the count of a prefix is hit by exactly the kept
/// element whose own prefix count equals it.
pub proof fn lemma_count_kept_surjective(keep: Seq<bool>, i: int, p: int)
    requires
        0 <= i,
        0 <= p < spec_count_kept(keep, i),
    ensures
        exists|j: int|
            0 <= j < i && keep[j] && #[trigger] spec_count_kept(keep, j) == p,
    decreases i,
{
    if i > 0 {
        if p < spec_count_kept(keep, i - 1) {
            lemma_count_kept_surjective(keep, i - 1, p);
            let j = choose|j: int|
                0 <= j < i - 1 && keep[j] && #[trigger] spec_count_kept(keep, j) == p;
            assert(0 <= j < i && keep[j] && spec_count_kept(keep, j) == p);
        } else {
            assert(keep[i - 1] && spec_count_kept(keep, i - 1) == p);
        }
    }
}

/// Two distinct kept elements land on distinct new indices, in the same
/// relative order.
pub proof fn lemma_count_kept_injective(keep: Seq<bool>, a: int, b: int)
    requires
        0 <= a < b,
        keep[a],
    ensures
        spec_count_kept(keep, a) < spec_count_kept(keep, b),
{
    lemma_count_kept_monotone(keep, a + 1, b);
}

} // verus!
