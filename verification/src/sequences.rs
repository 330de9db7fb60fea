//! Sequences: the first index at which something holds.

use vstd::prelude::*;

verus! {

/// `bad` holds of the item at `n` and of none before it.
pub open spec fn is_first_index<T>(items: Seq<T>, bad: spec_fn(T) -> bool, n: int) -> bool {
    &&& 0 <= n < items.len()
    &&& bad(items[n])
    &&& forall|i: int| 0 <= i < n ==> !bad(#[trigger] items[i])
}

/// The first index at which `bad` holds, if there is one.
pub open spec fn first_index<T>(items: Seq<T>, bad: spec_fn(T) -> bool) -> Option<int> {
    if exists|n: int| is_first_index(items, bad, n) {
        Some(choose|n: int| is_first_index(items, bad, n))
    } else {
        None
    }
}

/// There is at most one first index.
pub proof fn first_index_found<T>(items: Seq<T>, bad: spec_fn(T) -> bool, n: int)
    requires
        is_first_index(items, bad, n),
    ensures
        first_index(items, bad) == Some(n),
{
    let m = choose|m: int| is_first_index(items, bad, m);
    assert(is_first_index(items, bad, m));
    assert(!(m < n)) by {
        if m < n {
            assert(!bad(items[m]));
        }
    }
    assert(!(n < m)) by {
        if n < m {
            assert(!bad(items[n]));
        }
    }
}

/// What holds of the item at the first index holds of none before it.
pub proof fn first_index_is_first<T>(items: Seq<T>, bad: spec_fn(T) -> bool, i: int)
    requires
        first_index(items, bad) is Some,
    ensures
        0 <= first_index(items, bad)->0 < items.len(),
        bad(items[first_index(items, bad)->0]),
        0 <= i < first_index(items, bad)->0 ==> !bad(items[i]),
{
}

/// Where `bad` holds of an item, there is a first index, and where it holds of none, there is none.
pub proof fn first_index_exists<T>(items: Seq<T>, bad: spec_fn(T) -> bool)
    ensures
        first_index(items, bad) is Some <==> exists|i: int|
            0 <= i < items.len() && bad(#[trigger] items[i]),
{
    if exists|i: int| 0 <= i < items.len() && bad(#[trigger] items[i]) {
        let i = choose|i: int| 0 <= i < items.len() && bad(#[trigger] items[i]);
        least_bad(items, bad, i);
    }
}

proof fn least_bad<T>(items: Seq<T>, bad: spec_fn(T) -> bool, i: int)
    requires
        0 <= i < items.len(),
        bad(items[i]),
    ensures
        exists|n: int| is_first_index(items, bad, n),
    decreases i,
{
    if exists|k: int| 0 <= k < i && bad(#[trigger] items[k]) {
        least_bad(items, bad, choose|k: int| 0 <= k < i && bad(#[trigger] items[k]));
    } else {
        assert(is_first_index(items, bad, i));
    }
}

} // verus!
