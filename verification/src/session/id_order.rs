//! Responses in the order of their ids.

use crate::json_types::json_rpc_id::JsonRpcIdView;
use crate::json_types::json_rpc_response::JsonRpcResponseView;
use crate::json_types::json_rpc_responses;
use crate::json_types::{JsonRpcId, JsonRpcResponse};
use vstd::prelude::*;

verus! {

/// Where an id stands in the order: the numbers as they are, everything else before them.
pub open spec fn rank(id: JsonRpcIdView) -> int {
    match id {
        JsonRpcIdView::Number(n) => n as int,
        _ => i64::MIN - 1,
    }
}

/// The responses whose id has the given rank, in the order in which they come.
pub open spec fn of_rank(responses: Seq<JsonRpcResponseView>, k: int) -> Seq<JsonRpcResponseView>
    decreases responses.len(),
{
    if responses.len() == 0 {
        Seq::empty()
    } else if rank(responses[0].id) == k {
        seq![responses[0]] + of_rank(responses.drop_first(), k)
    } else {
        of_rank(responses.drop_first(), k)
    }
}

/// No response stands before one with a lower id.
pub open spec fn in_id_order(responses: Seq<JsonRpcResponseView>) -> bool {
    forall|i: int, j: int|
        #![trigger responses[i], responses[j]]
        0 <= i < j < responses.len() ==> rank(responses[i].id) <= rank(responses[j].id)
}

/// `sorted` holds the responses of `responses` in the order of their ids, and those with one id
/// in the order in which they came.
pub open spec fn stable_sorted(
    responses: Seq<JsonRpcResponseView>,
    sorted: Seq<JsonRpcResponseView>,
) -> bool {
    &&& in_id_order(sorted)
    &&& forall|k: int| #[trigger] of_rank(sorted, k) == of_rank(responses, k)
}

proof fn of_rank_behind(a: Seq<JsonRpcResponseView>, b: Seq<JsonRpcResponseView>, k: int)
    ensures
        of_rank(a + b, k) == of_rank(a, k) + of_rank(b, k),
    decreases a.len(),
{
    if a.len() == 0 {
        assert(a + b =~= b);
        assert(of_rank(a, k) + of_rank(b, k) =~= of_rank(b, k));
    } else {
        assert((a + b).drop_first() =~= a.drop_first() + b);
        of_rank_behind(a.drop_first(), b, k);
        assert(of_rank(a + b, k) =~= of_rank(a, k) + of_rank(b, k));
    }
}

proof fn of_rank_none(responses: Seq<JsonRpcResponseView>, k: int)
    requires
        forall|i: int| 0 <= i < responses.len() ==> rank((#[trigger] responses[i]).id) != k,
    ensures
        of_rank(responses, k).len() == 0,
    decreases responses.len(),
{
    if responses.len() > 0 {
        let rest = responses.drop_first();
        assert forall|i: int| 0 <= i < rest.len() implies rank((#[trigger] rest[i]).id) != k by {
            assert(rest[i] == responses[i + 1]);
        }
        of_rank_none(rest, k);
    }
}

proof fn of_rank_one(response: JsonRpcResponseView, k: int)
    ensures
        of_rank(seq![response], k) == if rank(response.id) == k {
            seq![response]
        } else {
            Seq::<JsonRpcResponseView>::empty()
        },
{
    reveal_with_fuel(of_rank, 2);
    assert(seq![response].drop_first() =~= Seq::empty());
    assert(seq![response] + Seq::<JsonRpcResponseView>::empty() =~= seq![response]);
}

proof fn tail_in_id_order(responses: Seq<JsonRpcResponseView>)
    requires
        in_id_order(responses),
        responses.len() > 0,
    ensures
        in_id_order(responses.drop_first()),
{
    let rest = responses.drop_first();
    assert forall|i: int, j: int|
        #![trigger rest[i], rest[j]]
        0 <= i < j < rest.len() implies rank(rest[i].id) <= rank(rest[j].id) by {
        assert(rest[i] == responses[i + 1]);
        assert(rest[j] == responses[j + 1]);
    }
}

/// There is only one way to sort responses by their ids that keeps those with one id in order.
pub proof fn stable_sorted_is_unique(
    responses: Seq<JsonRpcResponseView>,
    a: Seq<JsonRpcResponseView>,
    b: Seq<JsonRpcResponseView>,
)
    requires
        stable_sorted(responses, a),
        stable_sorted(responses, b),
    ensures
        a == b,
{
    assert forall|k: int| #[trigger] of_rank(a, k) == of_rank(b, k) by {}
    same_ranks_same_order(a, b);
}

proof fn same_ranks_same_order(a: Seq<JsonRpcResponseView>, b: Seq<JsonRpcResponseView>)
    requires
        in_id_order(a),
        in_id_order(b),
        forall|k: int| #[trigger] of_rank(a, k) == of_rank(b, k),
    ensures
        a == b,
    decreases a.len(),
{
    if a.len() == 0 {
        if b.len() > 0 {
            let k = rank(b[0].id);
            assert(of_rank(a, k) == of_rank(b, k));
        }
        assert(a =~= b);
    } else {
        let x = a[0];
        let k = rank(x.id);
        assert(of_rank(a, k)[0] == x);
        assert(of_rank(b, k) == of_rank(a, k));
        if b.len() == 0 {
            assert(of_rank(b, k).len() == 0);
        }
        let y = b[0];
        let m = rank(y.id);
        assert(of_rank(a, m) == of_rank(b, m));
        assert(of_rank(b, m)[0] == y);
        if m > k {
            assert forall|i: int| 0 <= i < b.len() implies rank((#[trigger] b[i]).id) != k by {
                if i > 0 {
                    assert(rank(b[0].id) <= rank(b[i].id));
                }
            }
            of_rank_none(b, k);
        }
        if k > m {
            assert forall|i: int| 0 <= i < a.len() implies rank((#[trigger] a[i]).id) != m by {
                if i > 0 {
                    assert(rank(a[0].id) <= rank(a[i].id));
                }
            }
            of_rank_none(a, m);
        }
        assert(m == k);
        assert(x == y);
        let rest_a = a.drop_first();
        let rest_b = b.drop_first();
        assert forall|n: int| #[trigger] of_rank(rest_a, n) == of_rank(rest_b, n) by {
            assert(of_rank(a, n) == of_rank(b, n));
            if n == k {
                assert(of_rank(a, n).drop_first() =~= of_rank(rest_a, n));
                assert(of_rank(b, n).drop_first() =~= of_rank(rest_b, n));
            }
        }
        tail_in_id_order(a);
        tail_in_id_order(b);
        same_ranks_same_order(rest_a, rest_b);
        assert(a =~= seq![x] + rest_a);
        assert(b =~= seq![y] + rest_b);
    }
}

/// The responses in the order of their ids, those with one id in the order in which they came.
pub open spec fn by_id(responses: Seq<JsonRpcResponseView>) -> Seq<JsonRpcResponseView> {
    choose|sorted: Seq<JsonRpcResponseView>| stable_sorted(responses, sorted)
}

/// What is sorted is what `by_id` speaks of.
pub proof fn by_id_is_sorted(
    responses: Seq<JsonRpcResponseView>,
    sorted: Seq<JsonRpcResponseView>,
)
    requires
        stable_sorted(responses, sorted),
    ensures
        by_id(responses) == sorted,
{
    stable_sorted_is_unique(responses, by_id(responses), sorted);
}

/// `x` put into sorted responses, before those with the same id.
proof fn put_in_front(
    x: JsonRpcResponseView,
    sorted: Seq<JsonRpcResponseView>,
    low: int,
) -> (more: Seq<JsonRpcResponseView>)
    requires
        in_id_order(sorted),
        low <= rank(x.id),
        forall|i: int| #![trigger sorted[i]] 0 <= i < sorted.len() ==> low <= rank(sorted[i].id),
    ensures
        in_id_order(more),
        forall|i: int| #![trigger more[i]] 0 <= i < more.len() ==> low <= rank(more[i].id),
        forall|k: int| #[trigger] of_rank(more, k) == of_rank(seq![x] + sorted, k),
    decreases sorted.len(),
{
    if sorted.len() == 0 || rank(x.id) <= rank(sorted[0].id) {
        let more = seq![x] + sorted;
        assert forall|i: int, j: int|
            #![trigger more[i], more[j]]
            0 <= i < j < more.len() implies rank(more[i].id) <= rank(more[j].id) by {
            assert(more[j] == sorted[j - 1]);
            assert(rank(sorted[0].id) <= rank(sorted[j - 1].id));
            if i > 0 {
                assert(more[i] == sorted[i - 1]);
            }
        }
        assert forall|i: int| #![trigger more[i]] 0 <= i < more.len() implies low <= rank(
            more[i].id,
        ) by {
            if i > 0 {
                assert(more[i] == sorted[i - 1]);
            }
        }
        more
    } else {
        let y = sorted[0];
        let rest = sorted.drop_first();
        tail_in_id_order(sorted);
        assert forall|i: int| #![trigger rest[i]] 0 <= i < rest.len() implies rank(y.id) <= rank(
            rest[i].id,
        ) by {
            assert(rest[i] == sorted[i + 1]);
        }
        let below = put_in_front(x, rest, rank(y.id));
        let more = seq![y] + below;
        assert forall|i: int, j: int|
            #![trigger more[i], more[j]]
            0 <= i < j < more.len() implies rank(more[i].id) <= rank(more[j].id) by {
            assert(more[j] == below[j - 1]);
            if i > 0 {
                assert(more[i] == below[i - 1]);
            }
        }
        assert forall|i: int| #![trigger more[i]] 0 <= i < more.len() implies low <= rank(
            more[i].id,
        ) by {
            if i > 0 {
                assert(more[i] == below[i - 1]);
            }
        }
        assert forall|k: int| #[trigger] of_rank(more, k) == of_rank(seq![x] + sorted, k) by {
            assert(of_rank(below, k) == of_rank(seq![x] + rest, k));
            assert(sorted =~= seq![y] + rest);
            of_rank_behind(seq![y], below, k);
            of_rank_behind(seq![x], rest, k);
            of_rank_behind(seq![x], sorted, k);
            of_rank_behind(seq![y], rest, k);
            of_rank_one(x, k);
            of_rank_one(y, k);
            assert(of_rank(more, k) =~= of_rank(seq![x] + sorted, k));
        }
        more
    }
}

/// Responses can always be sorted by their ids with those with one id kept in order, and `by_id`
/// is what comes of it.
pub proof fn stable_sorted_exists(responses: Seq<JsonRpcResponseView>)
    ensures
        stable_sorted(responses, by_id(responses)),
    decreases responses.len(),
{
    if responses.len() == 0 {
        assert(stable_sorted(responses, responses));
    } else {
        let x = responses[0];
        let rest = responses.drop_first();
        let sorted = by_id(rest);
        stable_sorted_exists(rest);
        let low = if sorted.len() > 0 && rank(sorted[0].id) < rank(x.id) {
            rank(sorted[0].id)
        } else {
            rank(x.id)
        };
        assert forall|i: int| #![trigger sorted[i]] 0 <= i < sorted.len() implies low <= rank(
            sorted[i].id,
        ) by {
            if i > 0 {
                assert(rank(sorted[0].id) <= rank(sorted[i].id));
            }
        }
        let more = put_in_front(x, sorted, low);
        assert forall|k: int| #[trigger] of_rank(more, k) == of_rank(responses, k) by {
            assert(of_rank(more, k) == of_rank(seq![x] + sorted, k));
            assert(of_rank(sorted, k) == of_rank(rest, k));
            assert(responses =~= seq![x] + rest);
            of_rank_behind(seq![x], sorted, k);
            of_rank_behind(seq![x], rest, k);
        }
        assert(stable_sorted(responses, more));
    }
}

/// No two responses stand at one place in the order of ids.
pub open spec fn ranks_differ(responses: Seq<JsonRpcResponseView>) -> bool {
    forall|i: int, j: int|
        #![trigger responses[i], responses[j]]
        0 <= i < j < responses.len() ==> rank(responses[i].id) != rank(responses[j].id)
}

proof fn of_rank_at_most_one(responses: Seq<JsonRpcResponseView>, k: int)
    requires
        ranks_differ(responses),
    ensures
        of_rank(responses, k).len() <= 1,
    decreases responses.len(),
{
    if responses.len() > 0 {
        let rest = responses.drop_first();
        assert forall|i: int, j: int|
            #![trigger rest[i], rest[j]]
            0 <= i < j < rest.len() implies rank(rest[i].id) != rank(rest[j].id) by {
            assert(rest[i] == responses[i + 1]);
            assert(rest[j] == responses[j + 1]);
        }
        of_rank_at_most_one(rest, k);
        if rank(responses[0].id) == k {
            assert forall|i: int| 0 <= i < rest.len() implies rank((#[trigger] rest[i]).id) != k by {
                assert(rest[i] == responses[i + 1]);
            }
            of_rank_none(rest, k);
        }
    }
}

/// Where no two responses stand at one place in the order of ids, it does not matter in which order
/// they come.
pub proof fn order_of_arrival_does_not_matter(
    responses: Seq<JsonRpcResponseView>,
    others: Seq<JsonRpcResponseView>,
)
    requires
        responses.to_multiset() == others.to_multiset(),
        ranks_differ(responses),
    ensures
        by_id(responses) == by_id(others),
{
    stable_sorted_exists(others);
    assert forall|k: int| #[trigger] of_rank(by_id(others), k) == of_rank(responses, k) by {
        assert(of_rank(by_id(others), k) == of_rank(others, k));
        let a = of_rank(responses, k);
        let b = of_rank(others, k);
        assert forall|x: JsonRpcResponseView| a.to_multiset().count(x) == #[trigger]
        b.to_multiset().count(x) by {
            of_rank_counts(responses, k, x);
            of_rank_counts(others, k, x);
        }
        assert(a.to_multiset() =~= b.to_multiset());
        a.to_multiset_ensures();
        b.to_multiset_ensures();
        of_rank_at_most_one(responses, k);
        if a.len() == 1 {
            assert(a.contains(a[0]));
            assert(b.to_multiset().count(a[0]) > 0);
            assert(b.contains(a[0]));
        }
        assert(a =~= b);
    }
    by_id_is_sorted(responses, by_id(others));
}

/// Where the id of some response is no number, the first in the order of ids has such an id.
pub proof fn other_ids_come_first(responses: Seq<JsonRpcResponseView>, i: int)
    requires
        0 <= i < responses.len(),
        !(responses[i].id is Number),
    ensures
        by_id(responses).len() > 0,
        !(by_id(responses)[0].id is Number),
{
    let sorted = by_id(responses);
    let k = rank(responses[i].id);
    stable_sorted_exists(responses);
    of_rank_counts(responses, k, responses[i]);
    responses.to_multiset_ensures();
    assert(responses.contains(responses[i]));
    of_rank(responses, k).to_multiset_ensures();
    assert(of_rank(responses, k).contains(responses[i]));
    assert(of_rank(sorted, k) == of_rank(responses, k));
    if forall|j: int| 0 <= j < sorted.len() ==> rank((#[trigger] sorted[j]).id) != k {
        of_rank_none(sorted, k);
    }
    let j = choose|j: int| 0 <= j < sorted.len() && rank((#[trigger] sorted[j]).id) == k;
    if j > 0 {
        assert(rank(sorted[0].id) <= rank(sorted[j].id));
    }
}

proof fn of_rank_counts(responses: Seq<JsonRpcResponseView>, k: int, x: JsonRpcResponseView)
    ensures
        of_rank(responses, k).to_multiset().count(x) == if rank(x.id) == k {
            responses.to_multiset().count(x)
        } else {
            0
        },
    decreases responses.len(),
{
    broadcast use vstd::seq_lib::group_to_multiset_ensures;

    if responses.len() > 0 {
        let y = responses[0];
        let rest = responses.drop_first();
        of_rank_counts(rest, k, x);
        assert(responses =~= seq![y] + rest);
        vstd::seq_lib::lemma_multiset_commutative(seq![y], rest);
        vstd::seq_lib::lemma_multiset_commutative(seq![y], of_rank(rest, k));
        assert(seq![y] =~= Seq::empty().push(y));
    }
}

/// Responses whose ids count up from `first`, in whatever order they come, are put into the order
/// of counting.
pub proof fn counted_ids_are_put_in_order(
    responses: Seq<JsonRpcResponseView>,
    counted: Seq<JsonRpcResponseView>,
    first: int,
)
    requires
        responses.to_multiset() == counted.to_multiset(),
        forall|i: int|
            #![trigger counted[i]]
            0 <= i < counted.len() ==> counted[i].id is Number && rank(counted[i].id) == first + i,
    ensures
        by_id(responses) == counted,
{
    assert forall|k: int| #[trigger] of_rank(counted, k) == of_rank(responses, k) by {
        let a = of_rank(counted, k);
        let b = of_rank(responses, k);
        assert forall|x: JsonRpcResponseView| a.to_multiset().count(x) == #[trigger]
        b.to_multiset().count(x) by {
            of_rank_counts(counted, k, x);
            of_rank_counts(responses, k, x);
        }
        assert(a.to_multiset() =~= b.to_multiset());
        a.to_multiset_ensures();
        b.to_multiset_ensures();
        if first <= k < first + counted.len() {
            let i = k - first;
            assert(counted =~= counted.take(i) + (seq![counted[i]] + counted.skip(i + 1)));
            of_rank_behind(counted.take(i), seq![counted[i]] + counted.skip(i + 1), k);
            of_rank_behind(seq![counted[i]], counted.skip(i + 1), k);
            of_rank_one(counted[i], k);
            of_rank_none(counted.take(i), k);
            assert forall|j: int| 0 <= j < counted.skip(i + 1).len() implies rank(
                (#[trigger] counted.skip(i + 1)[j]).id,
            ) != k by {
                assert(counted.skip(i + 1)[j] == counted[i + 1 + j]);
            }
            of_rank_none(counted.skip(i + 1), k);
            assert(a =~= seq![counted[i]]);
            assert(b.len() == 1);
            assert(a.contains(a[0]));
            assert(a.to_multiset().count(a[0]) > 0);
            assert(b.to_multiset().count(a[0]) > 0);
            assert(b.contains(a[0]));
            assert(b =~= a);
        } else {
            of_rank_none(counted, k);
            assert(b.len() == 0);
            assert(a =~= b);
        }
    }
    by_id_is_sorted(responses, counted);
}

/// Sorting loses no response and adds none.
pub proof fn sorting_keeps_all(responses: Seq<JsonRpcResponseView>)
    ensures
        by_id(responses).to_multiset() == responses.to_multiset(),
        by_id(responses).len() == responses.len(),
{
    let sorted = by_id(responses);
    stable_sorted_exists(responses);
    assert forall|x: JsonRpcResponseView| sorted.to_multiset().count(x) == #[trigger]
    responses.to_multiset().count(x) by {
        let k = rank(x.id);
        assert(of_rank(sorted, k) == of_rank(responses, k));
        of_rank_counts(sorted, k, x);
        of_rank_counts(responses, k, x);
    }
    assert(sorted.to_multiset() =~= responses.to_multiset());
    sorted.to_multiset_ensures();
    responses.to_multiset_ensures();
}

/// Sorted responses stand in the order of their ids: the numbers as they count.
pub proof fn sorted_ids_do_not_fall(responses: Seq<JsonRpcResponseView>, i: int, j: int)
    requires
        0 <= i < j < by_id(responses).len(),
    ensures
        by_id(responses)[i].id is Number ==> by_id(responses)[j].id is Number
            && by_id(responses)[i].id->Number_0 <= by_id(responses)[j].id->Number_0,
{
    stable_sorted_exists(responses);
    let sorted = by_id(responses);
    assert(rank(sorted[i].id) <= rank(sorted[j].id));
}

/// Where all ids are numbers, the lowest comes first.
pub proof fn lowest_id_comes_first(responses: Seq<JsonRpcResponseView>, lowest: int)
    requires
        0 <= lowest < responses.len(),
        forall|i: int|
            #![trigger responses[i]]
            0 <= i < responses.len() ==> responses[i].id is Number
                && responses[lowest].id->Number_0 <= responses[i].id->Number_0,
    ensures
        by_id(responses).len() > 0,
        by_id(responses)[0].id == responses[lowest].id,
{
    let sorted = by_id(responses);
    let x = responses[lowest];
    sorting_keeps_all(responses);
    stable_sorted_exists(responses);
    sorted.to_multiset_ensures();
    responses.to_multiset_ensures();
    assert(responses.contains(x));
    assert(sorted.to_multiset().count(x) > 0);
    assert(sorted.contains(x));
    let j = choose|j: int| 0 <= j < sorted.len() && sorted[j] == x;
    assert(sorted.contains(sorted[0]));
    assert(responses.to_multiset().count(sorted[0]) > 0);
    assert(responses.contains(sorted[0]));
    let i = choose|i: int| 0 <= i < responses.len() && responses[i] == sorted[0];
    assert(x.id->Number_0 <= responses[i].id->Number_0);
    if j > 0 {
        assert(rank(sorted[0].id) <= rank(sorted[j].id));
    }
}

/// Whether `a` stands no later than `b` in the order of ids.
fn no_later(a: &JsonRpcId, b: &JsonRpcId) -> (first: bool)
    ensures
        first == (rank(a@) <= rank(b@)),
{
    match (a, b) {
        (JsonRpcId::Number(m), JsonRpcId::Number(n)) => *m <= *n,
        (JsonRpcId::Number(_), _) => false,
        _ => true,
    }
}

/// Turns the order round.
fn reversed(responses: Vec<JsonRpcResponse>) -> (turned: Vec<JsonRpcResponse>)
    ensures
        turned@ == responses@.reverse(),
{
    let mut rest = responses;
    let mut turned: Vec<JsonRpcResponse> = Vec::new();
    while rest.len() > 0
        invariant
            rest@.len() + turned@.len() == responses@.len(),
            rest@ == responses@.take(rest@.len() as int),
            forall|i: int|
                #![trigger turned@[i]]
                0 <= i < turned@.len() ==> turned@[i] == responses@[responses@.len() - 1 - i],
        decreases rest@.len(),
    {
        match rest.pop() {
            Some(response) => {
                assert(rest@ =~= responses@.take(rest@.len() as int));
                turned.push(response);
            },
            None => {},
        }
    }
    assert(turned@ =~= responses@.reverse());
    turned
}

/// The part of a merge that is done, and what is left of the two sides.
spec fn merging(
    a: Seq<JsonRpcResponseView>,
    b: Seq<JsonRpcResponseView>,
    done: Seq<JsonRpcResponseView>,
    left: Seq<JsonRpcResponseView>,
    right: Seq<JsonRpcResponseView>,
) -> bool {
    &&& in_id_order(done)
    &&& in_id_order(left)
    &&& in_id_order(right)
    &&& forall|i: int, j: int|
        #![trigger done[i], left[j]]
        0 <= i < done.len() && 0 <= j < left.len() ==> rank(done[i].id) <= rank(left[j].id)
    &&& forall|i: int, j: int|
        #![trigger done[i], right[j]]
        0 <= i < done.len() && 0 <= j < right.len() ==> rank(done[i].id) <= rank(right[j].id)
    &&& forall|k: int| #[trigger]
        of_rank(done, k) + of_rank(left, k) + of_rank(right, k) == of_rank(a, k) + of_rank(b, k)
}

proof fn merge_left(
    a: Seq<JsonRpcResponseView>,
    b: Seq<JsonRpcResponseView>,
    done: Seq<JsonRpcResponseView>,
    left: Seq<JsonRpcResponseView>,
    right: Seq<JsonRpcResponseView>,
)
    requires
        merging(a, b, done, left, right),
        left.len() > 0,
        right.len() > 0 ==> rank(left[0].id) <= rank(right[0].id),
    ensures
        merging(a, b, done.push(left[0]), left.drop_first(), right),
{
    let x = left[0];
    let rest = left.drop_first();
    let more = done.push(x);
    tail_in_id_order(left);
    assert forall|i: int, j: int|
        #![trigger more[i], rest[j]]
        0 <= i < more.len() && 0 <= j < rest.len() implies rank(more[i].id) <= rank(rest[j].id) by {
        assert(rest[j] == left[j + 1]);
        if i < done.len() {
            assert(more[i] == done[i]);
        }
    }
    assert forall|i: int, j: int|
        #![trigger more[i], right[j]]
        0 <= i < more.len() && 0 <= j < right.len() implies rank(more[i].id) <= rank(
        right[j].id,
    ) by {
        if i < done.len() {
            assert(more[i] == done[i]);
        } else if j > 0 {
            assert(rank(right[0].id) <= rank(right[j].id));
        }
    }
    assert forall|k: int| #[trigger]
        of_rank(more, k) + of_rank(rest, k) + of_rank(right, k) == of_rank(a, k) + of_rank(
            b,
            k,
        ) by {
        assert(of_rank(done, k) + of_rank(left, k) + of_rank(right, k) == of_rank(a, k) + of_rank(
            b,
            k,
        ));
        assert(more =~= done + seq![x]);
        of_rank_behind(done, seq![x], k);
        of_rank_one(x, k);
        assert(of_rank(more, k) + of_rank(rest, k) =~= of_rank(done, k) + of_rank(left, k));
    }
}

proof fn merge_right(
    a: Seq<JsonRpcResponseView>,
    b: Seq<JsonRpcResponseView>,
    done: Seq<JsonRpcResponseView>,
    left: Seq<JsonRpcResponseView>,
    right: Seq<JsonRpcResponseView>,
)
    requires
        merging(a, b, done, left, right),
        right.len() > 0,
        left.len() > 0 ==> rank(right[0].id) < rank(left[0].id),
    ensures
        merging(a, b, done.push(right[0]), left, right.drop_first()),
{
    let x = right[0];
    let rest = right.drop_first();
    let more = done.push(x);
    tail_in_id_order(right);
    assert forall|i: int, j: int|
        #![trigger more[i], left[j]]
        0 <= i < more.len() && 0 <= j < left.len() implies rank(more[i].id) <= rank(left[j].id) by {
        if i < done.len() {
            assert(more[i] == done[i]);
        } else if j > 0 {
            assert(rank(left[0].id) <= rank(left[j].id));
        }
    }
    assert forall|i: int, j: int|
        #![trigger more[i], rest[j]]
        0 <= i < more.len() && 0 <= j < rest.len() implies rank(more[i].id) <= rank(rest[j].id) by {
        assert(rest[j] == right[j + 1]);
        if i < done.len() {
            assert(more[i] == done[i]);
        }
    }
    assert forall|k: int| #[trigger]
        of_rank(more, k) + of_rank(left, k) + of_rank(rest, k) == of_rank(a, k) + of_rank(
            b,
            k,
        ) by {
        assert(of_rank(done, k) + of_rank(left, k) + of_rank(right, k) == of_rank(a, k) + of_rank(
            b,
            k,
        ));
        assert(more =~= done + seq![x]);
        of_rank_behind(done, seq![x], k);
        of_rank_one(x, k);
        if rank(x.id) == k {
            assert forall|j: int| 0 <= j < left.len() implies rank((#[trigger] left[j]).id) != k by {
                if j > 0 {
                    assert(rank(left[0].id) <= rank(left[j].id));
                }
            }
            of_rank_none(left, k);
        }
        assert(of_rank(more, k) + of_rank(left, k) + of_rank(rest, k) =~= of_rank(done, k)
            + of_rank(left, k) + of_rank(right, k));
    }
}

/// Puts two runs of responses that are in order together into one.
fn merge(a: Vec<JsonRpcResponse>, b: Vec<JsonRpcResponse>) -> (merged: Vec<JsonRpcResponse>)
    requires
        in_id_order(json_rpc_responses::responses_view(a@)),
        in_id_order(json_rpc_responses::responses_view(b@)),
    ensures
        merged@.len() == a@.len() + b@.len(),
        in_id_order(json_rpc_responses::responses_view(merged@)),
        forall|k: int| #[trigger]
            of_rank(json_rpc_responses::responses_view(merged@), k) == of_rank(
                json_rpc_responses::responses_view(a@),
                k,
            ) + of_rank(json_rpc_responses::responses_view(b@), k),
{
    let ghost all_a = json_rpc_responses::responses_view(a@);
    let ghost all_b = json_rpc_responses::responses_view(b@);
    let ghost total = a@.len() + b@.len();
    let mut left = reversed(a);
    let mut right = reversed(b);
    let mut merged: Vec<JsonRpcResponse> = Vec::new();
    let ghost mut rest_a = all_a;
    let ghost mut rest_b = all_b;
    proof {
        assert(json_rpc_responses::responses_view(left@.reverse()) =~= all_a);
        assert(json_rpc_responses::responses_view(right@.reverse()) =~= all_b);
        assert(json_rpc_responses::responses_view(merged@) =~= Seq::empty());
        assert forall|k: int| #[trigger]
            of_rank(json_rpc_responses::responses_view(merged@), k) + of_rank(all_a, k) + of_rank(
                all_b,
                k,
            ) == of_rank(all_a, k) + of_rank(all_b, k) by {
            assert(of_rank(json_rpc_responses::responses_view(merged@), k) + of_rank(all_a, k)
                =~= of_rank(all_a, k));
        }
    }
    while left.len() > 0 || right.len() > 0
        invariant
            rest_a == json_rpc_responses::responses_view(left@.reverse()),
            rest_b == json_rpc_responses::responses_view(right@.reverse()),
            merging(
                all_a,
                all_b,
                json_rpc_responses::responses_view(merged@),
                rest_a,
                rest_b,
            ),
            merged@.len() + left@.len() + right@.len() == total,
        decreases left@.len() + right@.len(),
    {
        let from_left = if left.len() == 0 {
            false
        } else if right.len() == 0 {
            true
        } else {
            no_later(&left[left.len() - 1].id, &right[right.len() - 1].id)
        };
        let ghost before = merged@;
        if from_left {
            match left.pop() {
                Some(response) => {
                    merged.push(response);
                    proof {
                        merge_left(
                            all_a,
                            all_b,
                            json_rpc_responses::responses_view(before),
                            rest_a,
                            rest_b,
                        );
                        assert(rest_a[0] == response@);
                        assert(json_rpc_responses::responses_view(merged@)
                            =~= json_rpc_responses::responses_view(before).push(response@));
                        assert(json_rpc_responses::responses_view(left@.reverse())
                            =~= rest_a.drop_first());
                        rest_a = rest_a.drop_first();
                    }
                },
                None => {},
            }
        } else {
            match right.pop() {
                Some(response) => {
                    merged.push(response);
                    proof {
                        merge_right(
                            all_a,
                            all_b,
                            json_rpc_responses::responses_view(before),
                            rest_a,
                            rest_b,
                        );
                        assert(rest_b[0] == response@);
                        assert(json_rpc_responses::responses_view(merged@)
                            =~= json_rpc_responses::responses_view(before).push(response@));
                        assert(json_rpc_responses::responses_view(right@.reverse())
                            =~= rest_b.drop_first());
                        rest_b = rest_b.drop_first();
                    }
                },
                None => {},
            }
        }
    }
    proof {
        let out = json_rpc_responses::responses_view(merged@);
        assert forall|k: int| #[trigger] of_rank(out, k) == of_rank(all_a, k) + of_rank(
            all_b,
            k,
        ) by {
            assert(of_rank(out, k) + of_rank(rest_a, k) + of_rank(rest_b, k) == of_rank(all_a, k)
                + of_rank(all_b, k));
            assert(of_rank(out, k) + of_rank(rest_a, k) + of_rank(rest_b, k) =~= of_rank(out, k));
        }
    }
    merged
}

/// Sorts responses by their ids; those with one id stay in the order in which they came.
pub fn sort_by_id(responses: Vec<JsonRpcResponse>) -> (sorted: Vec<JsonRpcResponse>)
    ensures
        sorted@.len() == responses@.len(),
        stable_sorted(
            json_rpc_responses::responses_view(responses@),
            json_rpc_responses::responses_view(sorted@),
        ),
        json_rpc_responses::responses_view(sorted@) == by_id(
            json_rpc_responses::responses_view(responses@),
        ),
    decreases responses@.len(),
{
    if responses.len() < 2 {
        proof {
            by_id_is_sorted(
                json_rpc_responses::responses_view(responses@),
                json_rpc_responses::responses_view(responses@),
            );
        }
        return responses;
    }
    let ghost all = json_rpc_responses::responses_view(responses@);
    let mut front = responses;
    let middle: usize = front.len() / 2;
    let back = front.split_off(middle);
    let ghost front_view = json_rpc_responses::responses_view(front@);
    let ghost back_view = json_rpc_responses::responses_view(back@);
    assert(all =~= front_view + back_view);
    let sorted_front = sort_by_id(front);
    let sorted_back = sort_by_id(back);
    let sorted = merge(sorted_front, sorted_back);
    proof {
        let out = json_rpc_responses::responses_view(sorted@);
        assert forall|k: int| #[trigger] of_rank(out, k) == of_rank(all, k) by {
            of_rank_behind(front_view, back_view, k);
        }
        by_id_is_sorted(all, out);
    }
    sorted
}

} // verus!
