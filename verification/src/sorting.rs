//! Sorting of particle indices by packed cell key.
//!
//! The spatial rebuild orders particle indices by their packed cell id,
//! ties broken by the original index (and then keeps the live ones),
//! which makes the order a *function* of the key array: rebuilding twice
//! with unchanged keys yields the identical permutation. The
//! specification-level sort is insertion sort; the executable sort is
//! proved to return exactly it.

use vstd::prelude::*;

verus! {

/// Strict order on particle indices: by key, ties by index. Total on
/// distinct indices.
pub open spec fn spec_order_lt(keys: Seq<u64>, a: int, b: int) -> bool {
    keys[a] < keys[b] || (keys[a] == keys[b] && a < b)
}

/// `order` lists indices in strictly ascending key-then-index order.
pub open spec fn spec_sorted(keys: Seq<u64>, order: Seq<usize>) -> bool {
    forall|i: int, j: int|
        0 <= i < j < order.len() ==> spec_order_lt(keys, order[i] as int, order[j] as int)
}

/// Insert index `x` into an ascending index list, keeping it ascending.
pub open spec fn spec_insert(keys: Seq<u64>, s: Seq<usize>, x: usize) -> Seq<usize>
    decreases s.len(),
{
    if s.len() == 0 {
        seq![x]
    } else if spec_order_lt(keys, s.last() as int, x as int) {
        s.push(x)
    } else {
        spec_insert(keys, s.drop_last(), x).push(s.last())
    }
}

/// The sorted permutation of the first `i` indices.
pub open spec fn spec_sort(keys: Seq<u64>, i: int) -> Seq<usize>
    decreases i,
{
    if i <= 0 {
        Seq::empty()
    } else {
        spec_insert(keys, spec_sort(keys, i - 1), (i - 1) as usize)
    }
}

/// Where the insertion lands: splitting `s` at any position whose left
/// neighbor is below `x` and whose suffix is entirely above `x` gives the
/// insertion result.
pub proof fn lemma_insert_at(keys: Seq<u64>, s: Seq<usize>, x: usize, pos: int)
    requires
        0 <= pos <= s.len(),
        forall|i: int| pos <= i < s.len() ==> !spec_order_lt(keys, #[trigger] (s[i] as int), x as int),
        pos > 0 ==> spec_order_lt(keys, s[pos - 1] as int, x as int),
    ensures
        spec_insert(keys, s, x) == s.subrange(0, pos) + seq![x] + s.subrange(pos, s.len() as int),
    decreases s.len(),
{
    if s.len() == 0 {
        assert(spec_insert(keys, s, x) =~= s.subrange(0, pos) + seq![x] + s.subrange(
            pos,
            s.len() as int,
        ));
    } else if spec_order_lt(keys, s.last() as int, x as int) {
        assert(pos == s.len());
        assert(spec_insert(keys, s, x) =~= s.subrange(0, pos) + seq![x] + s.subrange(
            pos,
            s.len() as int,
        ));
    } else {
        assert(pos < s.len());
        assert forall|i: int| pos <= i < s.drop_last().len() implies !spec_order_lt(
            keys,
            #[trigger] (s.drop_last()[i] as int),
            x as int,
        ) by {
            assert(s.drop_last()[i] == s[i]);
        }
        if pos > 0 {
            assert(s.drop_last()[pos - 1] == s[pos - 1]);
        }
        lemma_insert_at(keys, s.drop_last(), x, pos);
        assert(spec_insert(keys, s, x) =~= s.subrange(0, pos) + seq![x] + s.subrange(
            pos,
            s.len() as int,
        ));
    }
}

/// Structural facts about the insertion: length, membership, range and
/// distinctness of entries, and preservation of sortedness.
pub proof fn lemma_insert_props(keys: Seq<u64>, s: Seq<usize>, x: usize, bound: int)
    requires
        spec_sorted(keys, s),
        forall|p: int| 0 <= p < s.len() ==> ((#[trigger] s[p]) as int) < bound,
        x as int == bound,
    ensures
        spec_insert(keys, s, x).len() == s.len() + 1,
        forall|p: int|
            0 <= p < s.len() + 1 ==> ((#[trigger] spec_insert(keys, s, x)[p]) as int) < bound + 1,
        forall|v: usize| #![trigger spec_insert(keys, s, x).contains(v)]
            spec_insert(keys, s, x).contains(v) <==> (s.contains(v) || v == x),
        spec_sorted(keys, spec_insert(keys, s, x)),
        forall|a: int, b: int|
            0 <= a < b < s.len() + 1 ==> spec_insert(keys, s, x)[a] != spec_insert(keys, s, x)[b],
    decreases s.len(),
{
    let r = spec_insert(keys, s, x);
    if s.len() == 0 {
        assert forall|v: usize| r.contains(v) <==> (s.contains(v) || v == x) by {
            assert(r[0] == x);
            if s.contains(v) {
                let q = choose|q: int| 0 <= q < s.len() && s[q] == v;
            }
        }
    } else if spec_order_lt(keys, s.last() as int, x as int) {
        assert forall|v: usize| r.contains(v) <==> (s.contains(v) || v == x) by {
            if r.contains(v) {
                let q = choose|q: int| 0 <= q < r.len() && r[q] == v;
                if q < s.len() {
                    assert(s[q] == v);
                    assert(s.contains(v));
                }
            }
            if s.contains(v) {
                let q = choose|q: int| 0 <= q < s.len() && s[q] == v;
                assert(r[q] == v);
                assert(r.contains(v));
            }
            if v == x {
                assert(r[s.len() as int] == x);
                assert(r.contains(v));
            }
        }
        assert forall|i: int, j: int| 0 <= i < j < r.len() implies spec_order_lt(
            keys,
            r[i] as int,
            r[j] as int,
        ) by {
            if j < s.len() {
            } else {
                assert(r[j] == x);
                if i < s.len() - 1 {
                    assert(spec_order_lt(keys, s[i] as int, s.last() as int));
                }
            }
        }
    } else {
        let d = s.drop_last();
        assert forall|p: int| 0 <= p < d.len() implies ((#[trigger] d[p]) as int) < bound by {
            assert(d[p] == s[p]);
        }
        assert forall|i: int, j: int| 0 <= i < j < d.len() implies spec_order_lt(
            keys,
            d[i] as int,
            d[j] as int,
        ) by {
            assert(d[i] == s[i] && d[j] == s[j]);
        }
        lemma_insert_props(keys, d, x, bound);
        let ri = spec_insert(keys, d, x);
        assert(r == ri.push(s.last()));
        assert forall|v: usize| r.contains(v) <==> (s.contains(v) || v == x) by {
            if r.contains(v) {
                let q = choose|q: int| 0 <= q < r.len() && r[q] == v;
                if q < ri.len() {
                    assert(ri.contains(v));
                    if d.contains(v) {
                        let q2 = choose|q2: int| 0 <= q2 < d.len() && d[q2] == v;
                        assert(s[q2] == v);
                        assert(s.contains(v));
                    }
                } else {
                    assert(v == s.last());
                    assert(s.contains(v));
                }
            }
            if s.contains(v) {
                let q = choose|q: int| 0 <= q < s.len() && s[q] == v;
                if q < s.len() - 1 {
                    assert(d[q] == v);
                    assert(d.contains(v));
                    assert(ri.contains(v));
                    let q2 = choose|q2: int| 0 <= q2 < ri.len() && ri[q2] == v;
                    assert(r[q2] == v);
                } else {
                    assert(r[r.len() - 1] == v);
                }
                assert(r.contains(v));
            }
            if v == x {
                assert(ri.contains(v));
                let q2 = choose|q2: int| 0 <= q2 < ri.len() && ri[q2] == v;
                assert(r[q2] == v);
                assert(r.contains(v));
            }
        }
        // x orders strictly below the removed last element; so does every
        // entry of the shorter insertion, which makes the final push sorted.
        assert(spec_order_lt(keys, x as int, s.last() as int));
        assert forall|i: int, j: int| 0 <= i < j < r.len() implies spec_order_lt(
            keys,
            r[i] as int,
            r[j] as int,
        ) by {
            if j < ri.len() {
            } else {
                assert(r[j] == s.last());
                let v = r[i];
                assert(ri.contains(v)) by {
                    assert(ri[i] == v);
                }
                if d.contains(v) {
                    let q = choose|q: int| 0 <= q < d.len() && d[q] == v;
                    assert(s[q] == v);
                    assert(spec_order_lt(keys, v as int, s.last() as int));
                } else {
                    assert(v == x);
                }
            }
        }
    }
    assert forall|a: int, b: int| 0 <= a < b < r.len() implies r[a] != r[b] by {
        assert(spec_order_lt(keys, r[a] as int, r[b] as int));
    }
}

/// Structural facts about the full sort: it is a permutation of `0..i`,
/// listed in strictly ascending key-then-index order.
pub proof fn lemma_sort_props(keys: Seq<u64>, i: int)
    requires
        0 <= i <= usize::MAX,
    ensures
        spec_sort(keys, i).len() == i,
        forall|p: int| 0 <= p < i ==> ((#[trigger] spec_sort(keys, i)[p]) as int) < i,
        forall|v: usize| (v as int) < i ==> spec_sort(keys, i).contains(v),
        forall|a: int, b: int|
            0 <= a < b < i ==> spec_sort(keys, i)[a] != spec_sort(keys, i)[b],
        spec_sorted(keys, spec_sort(keys, i)),
    decreases i,
{
    if i > 0 {
        lemma_sort_props(keys, i - 1);
        let s = spec_sort(keys, i - 1);
        lemma_insert_props(keys, s, (i - 1) as usize, i - 1);
        let r = spec_sort(keys, i);
        assert forall|v: usize| (v as int) < i implies r.contains(v) by {
            if (v as int) < i - 1 {
                assert(s.contains(v));
            }
        }
        assert forall|a: int, b: int| 0 <= a < b < i implies r[a] != r[b] by {
            assert(spec_order_lt(keys, r[a] as int, r[b] as int));
        }
    }
}

/// Sort indices `0..keys.len()` by key, ties by index: the executable
/// insertion sort returns exactly the specification-level sort.
pub fn sort_indices(keys: &Vec<u64>) -> (r: Vec<usize>)
    ensures
        r@ == spec_sort(keys@, keys@.len() as int),
{
    let n = keys.len();
    let mut order: Vec<usize> = Vec::new();
    let mut x: usize = 0;
    while x < n
        invariant
            0 <= x <= n,
            n == keys@.len(),
            order@ == spec_sort(keys@, x as int),
        decreases n - x,
    {
        proof {
            lemma_sort_props(keys@, x as int);
        }
        let mut pos: usize = order.len();
        while pos > 0 && keys[order[pos - 1]] > keys[x]
            invariant
                0 <= pos <= order@.len(),
                0 <= x < n,
                n == keys@.len(),
                order@ == spec_sort(keys@, x as int),
                forall|p: int| 0 <= p < order@.len() ==> ((#[trigger] order@[p]) as int) < x as int,
                forall|i: int|
                    pos as int <= i < order@.len() ==> !spec_order_lt(
                        keys@,
                        #[trigger] (order@[i] as int),
                        x as int,
                    ),
            decreases pos,
        {
            pos = pos - 1;
        }
        proof {
            lemma_insert_at(keys@, order@, x, pos as int);
        }
        let ghost prev = order@;
        order.insert(pos, x);
        proof {
            assert(order@ =~= prev.subrange(0, pos as int) + seq![x] + prev.subrange(
                pos as int,
                prev.len() as int,
            ));
        }
        x = x + 1;
    }
    order
}

} // verus!
