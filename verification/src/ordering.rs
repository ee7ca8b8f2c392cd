//! Stable ordering of pricing output.
//!
//! Pricing reports are returned sorted ascending by strike, ties keeping
//! their insertion order. The caller maps each strike to an order-preserving
//! integer key (positive IEEE-754 doubles compare like their bit patterns)
//! and the sort here produces the permutation of positions to read the
//! records in; the contract pins that permutation down uniquely.

use vstd::prelude::*;

verus! {

/// Strict stable precedence on positions of `keys`: `a` comes before `b`
/// when its key is smaller, or the keys tie and `a` is the earlier position.
pub open spec fn precedes(keys: Seq<u64>, a: int, b: int) -> bool
    recommends
        0 <= a < keys.len(),
        0 <= b < keys.len(),
{
    keys[a] < keys[b] || (keys[a] == keys[b] && a < b)
}

/// Computes the unique stable ascending ordering of `keys`: a permutation of
/// the positions `0 .. keys.len()` along which the keys are nondecreasing and
/// equal keys keep their original relative order.
#[verifier::loop_isolation(false)]
pub fn stable_sort_order(keys: &Vec<u64>) -> (order: Vec<usize>)
    ensures
        order.len() == keys.len(),
        forall|p: int| #![trigger order@[p]] 0 <= p < order.len() ==> order@[p] < keys.len(),
        forall|p: int, q: int|
            #![trigger order@[p], order@[q]]
            0 <= p < q < order.len() ==> precedes(keys@, order@[p] as int, order@[q] as int),
        forall|v: usize| v < keys.len() ==> #[trigger] order@.contains(v),
{
    let n: usize = keys.len();
    let mut order: Vec<usize> = Vec::new();
    let mut i: usize = 0;
    while i < n
        invariant
            i <= n,
            order.len() == i,
            forall|p: int| #![trigger order@[p]] 0 <= p < order.len() ==> order@[p] < i,
            forall|p: int, q: int|
                #![trigger order@[p], order@[q]]
                0 <= p < q < order.len() ==> precedes(keys@, order@[p] as int, order@[q] as int),
            forall|v: usize| v < i ==> #[trigger] order@.contains(v),
        decreases n - i,
    {
        let mut p: usize = 0;
        while p < order.len() && keys[order[p]] <= keys[i]
            invariant
                p <= order.len(),
                forall|q: int|
                    #![trigger order@[q]]
                    0 <= q < p ==> keys@[order@[q] as int] <= keys@[i as int],
            decreases order.len() - p,
        {
            p = p + 1;
        }
        let ghost prev = order@;
        order.insert(p, i);
        proof {
            prev.insert_ensures(p as int, i as usize);
            assert forall|a: int, b: int|
                #![trigger order@[a], order@[b]]
                0 <= a < b < order.len() implies precedes(keys@, order@[a] as int, order@[b] as int) by {
                if b < p {
                    assert(order@[a] == prev[a] && order@[b] == prev[b]);
                } else if a > p {
                    assert(order@[a] == prev[a - 1] && order@[b] == prev[b - 1]);
                } else if a < p && b == p {
                    // position `a` holds one of the keys found not to exceed
                    // key `i`, and its index is older, so it precedes `i`
                    // even on a tie
                    assert(order@[a] == prev[a]);
                    assert(keys@[prev[a] as int] <= keys@[i as int]);
                    assert(prev[a] < i);
                } else if a == p && b > p {
                    // everything at or past the insertion point carries a
                    // strictly larger key than key `i`
                    assert(order@[b] == prev[b - 1]);
                    assert(p < prev.len() && keys@[prev[p as int] as int] > keys@[i as int]);
                    if b - 1 > p {
                        assert(precedes(keys@, prev[p as int] as int, prev[b - 1] as int));
                    }
                    assert(keys@[prev[b - 1] as int] > keys@[i as int]);
                } else {
                    assert(a < p && b > p);
                    assert(order@[a] == prev[a] && order@[b] == prev[b - 1]);
                    if a < b - 1 {
                        assert(precedes(keys@, prev[a] as int, prev[b - 1] as int));
                    }
                }
            }
            assert forall|v: usize| v < i + 1 implies #[trigger] order@.contains(v) by {
                if v == i {
                    assert(order@[p as int] == i as usize);
                } else {
                    assert(prev.contains(v));
                    let k: int = choose|k: int| 0 <= k < prev.len() && prev[k] == v;
                    if k < p {
                        assert(order@[k] == v);
                    } else {
                        assert(order@[k + 1] == v);
                    }
                }
            }
        }
        i = i + 1;
    }
    order
}

} // verus!
