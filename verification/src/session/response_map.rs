//! Who waits for which response.

use crate::json_types::json_rpc_error::JsonRpcErrorView;
use crate::json_types::json_rpc_id::JsonRpcIdView;
use crate::json_types::json_rpc_response;
use crate::json_types::json_rpc_response::JsonRpcResponseView;
use crate::json_types::json_rpc_responses;
use crate::json_types::json_rpc_responses::JsonRpcResponsesView;
use crate::json_types::{JsonRpcError, JsonRpcId, JsonRpcResponse, JsonRpcResponses};
use crate::json_value::{JsonValue, JsonView};
use crate::session::id_order;
use crate::session::id_order::sort_by_id;
use std::collections::HashMap;
use vstd::prelude::*;

verus! {

broadcast use vstd::std_specs::hash::group_hash_axioms;

/// The calls that wait for a response: by their id the single ones, by the id of their first call
/// the batches. `S` takes the result of a single call, `B` the results of a batch.
pub struct ResponseMap<S, B> {
    next_id: i64,
    response_map: HashMap<i64, S>,
    batch_response_map: HashMap<i64, B>,
}

/// What a `ResponseMap` is.
pub struct ResponseMapView<S, B> {
    pub next_id: i64,
    pub singles: Map<i64, S>,
    pub batches: Map<i64, B>,
}

/// Where the results of an incoming response go.
#[allow(inconsistent_fields)]
pub enum Delivery<S, B> {
    Nowhere,
    Single { sender: S, result: Result<JsonValue, JsonRpcError> },
    Batch { sender: B, results: Vec<Result<JsonValue, JsonRpcError>> },
}

/// What a `Delivery` is.
#[allow(inconsistent_fields)]
pub enum DeliveryView<S, B> {
    Nowhere,
    Single { sender: S, result: Result<JsonView, JsonRpcErrorView> },
    Batch { sender: B, results: Seq<Result<JsonView, JsonRpcErrorView>> },
}

/// What the results of several calls are.
pub open spec fn results_view(results: Seq<Result<JsonValue, JsonRpcError>>) -> Seq<
    Result<JsonView, JsonRpcErrorView>,
> {
    results.map_values(
        |result: Result<JsonValue, JsonRpcError>| json_rpc_response::result_view(result),
    )
}

/// The results that responses carry.
pub open spec fn results_of(responses: Seq<JsonRpcResponseView>) -> Seq<
    Result<JsonView, JsonRpcErrorView>,
> {
    responses.map_values(|response: JsonRpcResponseView| response.result)
}

impl<S, B> Delivery<S, B> {
    /// What the delivery is.
    pub open spec fn view(&self) -> DeliveryView<S, B> {
        match *self {
            Delivery::Nowhere => DeliveryView::Nowhere,
            Delivery::Single { sender, result } => DeliveryView::Single {
                sender,
                result: json_rpc_response::result_view(result),
            },
            Delivery::Batch { sender, results } => DeliveryView::Batch {
                sender,
                results: results_view(results@),
            },
        }
    }
}

impl<S, B> ResponseMapView<S, B> {
    /// Nobody waits.
    pub open spec fn empty() -> ResponseMapView<S, B> {
        ResponseMapView { next_id: 0, singles: Map::empty(), batches: Map::empty() }
    }

    /// Where the results go. A single response goes to whoever waits under its id. The responses
    /// of a batch are put in the order of their ids, and go to whoever waits under the first.
    pub open spec fn delivery(self, responses: JsonRpcResponsesView) -> DeliveryView<S, B> {
        match responses {
            JsonRpcResponsesView::Single(response) => match response.id {
                JsonRpcIdView::Number(id) => if self.singles.contains_key(id) {
                    DeliveryView::Single { sender: self.singles[id], result: response.result }
                } else {
                    DeliveryView::Nowhere
                },
                _ => DeliveryView::Nowhere,
            },
            JsonRpcResponsesView::Batch(batch) => {
                let sorted = id_order::by_id(batch);
                if sorted.len() == 0 {
                    DeliveryView::Nowhere
                } else {
                    match sorted[0].id {
                        JsonRpcIdView::Number(id) => if self.batches.contains_key(id) {
                            DeliveryView::Batch {
                                sender: self.batches[id],
                                results: results_of(sorted),
                            }
                        } else {
                            DeliveryView::Nowhere
                        },
                        _ => DeliveryView::Nowhere,
                    }
                }
            },
        }
    }

    /// Who waits still, once the results are delivered: all but the one who got them.
    pub open spec fn after_delivery(self, responses: JsonRpcResponsesView) -> ResponseMapView<
        S,
        B,
    > {
        if self.delivery(responses) is Nowhere {
            self
        } else {
            match responses {
                JsonRpcResponsesView::Single(response) => ResponseMapView {
                    singles: self.singles.remove(response.id->Number_0),
                    ..self
                },
                JsonRpcResponsesView::Batch(batch) => ResponseMapView {
                    batches: self.batches.remove(id_order::by_id(batch)[0].id->Number_0),
                    ..self
                },
            }
        }
    }

    /// Every id that somebody waits under has been given out, as long as the numbering has not
    /// started over.
    pub open spec fn ids_given_out(self) -> bool {
        &&& 0 <= self.next_id
        &&& forall|id: i64| #[trigger] self.singles.contains_key(id) ==> id < self.next_id
        &&& forall|id: i64| #[trigger] self.batches.contains_key(id) ==> id < self.next_id
    }
}

/// Whoever waits for a single call gets the result of the response that carries the id of the
/// call; then everybody else waits as before.
pub proof fn call_gets_its_response<S, B>(
    map: ResponseMapView<S, B>,
    sender: S,
    result: Result<JsonView, JsonRpcErrorView>,
)
    requires
        !map.singles.contains_key(map.next_id),
    ensures
        ({
            let waiting = ResponseMapView {
                next_id: map.next_id.wrapping_add(1),
                singles: map.singles.insert(map.next_id, sender),
                batches: map.batches,
            };
            let response = JsonRpcResponsesView::Single(
                JsonRpcResponseView { id: JsonRpcIdView::Number(map.next_id), result },
            );
            &&& waiting.delivery(response) == DeliveryView::Single::<S, B> { sender, result }
            &&& waiting.after_delivery(response).singles == map.singles
            &&& waiting.after_delivery(response).batches == map.batches
        }),
{
    assert(map.singles.insert(map.next_id, sender).remove(map.next_id) =~= map.singles);
}

/// Nobody waits under an id that was not given out: not at first, and not after a delivery.
pub proof fn ids_stay_given_out<S, B>(map: ResponseMapView<S, B>, responses: JsonRpcResponsesView)
    ensures
        ResponseMapView::<S, B>::empty().ids_given_out(),
        map.ids_given_out() ==> map.after_delivery(responses).ids_given_out(),
{
    let after = map.after_delivery(responses);
    if map.ids_given_out() {
        assert forall|id: i64| #[trigger] after.singles.contains_key(id) implies id
            < after.next_id by {
            assert(map.singles.contains_key(id));
        }
        assert forall|id: i64| #[trigger] after.batches.contains_key(id) implies id
            < after.next_id by {
            assert(map.batches.contains_key(id));
        }
    }
}

/// Whoever waits is served once: the same responses coming again go nowhere.
pub proof fn delivered_once<S, B>(map: ResponseMapView<S, B>, responses: JsonRpcResponsesView)
    ensures
        map.after_delivery(responses).delivery(responses) is Nowhere,
{
}

/// A response that goes to one does not reach or disturb another: a single one leaves the batches
/// as they are, a batch leaves the single calls, and either takes away at most its own entry.
pub proof fn others_wait_on<S, B>(
    map: ResponseMapView<S, B>,
    responses: JsonRpcResponsesView,
    id: i64,
)
    ensures
        responses is Single ==> map.after_delivery(responses).batches == map.batches,
        responses is Batch ==> map.after_delivery(responses).singles == map.singles,
        responses matches JsonRpcResponsesView::Single(response) ==> response.id
            != JsonRpcIdView::Number(id) ==> (map.after_delivery(responses).singles.contains_key(id)
            <==> map.singles.contains_key(id)),
        responses matches JsonRpcResponsesView::Batch(batch) ==> id_order::by_id(batch)[0].id
            != JsonRpcIdView::Number(id) ==> (map.after_delivery(responses).batches.contains_key(id)
            <==> map.batches.contains_key(id)),
{
}

/// The results of a batch come in the order of its calls, in whatever order the responses come:
/// `answers` are the responses in the order of the calls, whose ids count up from `first`.
pub proof fn batch_results_in_call_order<S, B>(
    map: ResponseMapView<S, B>,
    first: i64,
    answers: Seq<JsonRpcResponseView>,
    batch: Seq<JsonRpcResponseView>,
)
    requires
        answers.len() > 0,
        map.batches.contains_key(first),
        forall|i: int|
            #![trigger answers[i]]
            0 <= i < answers.len() ==> answers[i].id is Number && answers[i].id->Number_0 == first
                + i,
        batch.to_multiset() == answers.to_multiset(),
    ensures
        map.delivery(JsonRpcResponsesView::Batch(batch)) == (DeliveryView::Batch::<S, B> {
            sender: map.batches[first],
            results: results_of(answers),
        }),
{
    id_order::counted_ids_are_put_in_order(batch, answers, first as int);
    assert(answers[0].id == JsonRpcIdView::Number(first));
}

/// A single response goes to whoever waits under its id, with its result, and to nobody where nobody
/// does; then nobody waits under that id, and everybody else does as before.
pub proof fn single_response_goes_to_its_waiter<S, B>(
    map: ResponseMapView<S, B>,
    response: JsonRpcResponseView,
)
    ensures
        ({
            let delivery = map.delivery(JsonRpcResponsesView::Single(response));
            let after = map.after_delivery(JsonRpcResponsesView::Single(response));
            let waited_for = response.id is Number && map.singles.contains_key(
                response.id->Number_0,
            );
            &&& waited_for ==> {
                &&& delivery == (DeliveryView::<S, B>::Single {
                    sender: map.singles[response.id->Number_0],
                    result: response.result,
                })
                &&& after.singles == map.singles.remove(response.id->Number_0)
            }
            &&& !waited_for ==> delivery is Nowhere && after == map
            &&& after.batches == map.batches
            &&& after.next_id == map.next_id
        }),
{
}

/// The responses of a batch go to whoever waits under the lowest of their ids, all of them; then
/// nobody waits under that id, and everybody else does as before. The results are those of all the
/// responses, in the order of their ids. Where nobody waits under the lowest id, they go nowhere.
pub proof fn batch_goes_to_the_waiter_of_its_lowest_id<S, B>(
    map: ResponseMapView<S, B>,
    batch: Seq<JsonRpcResponseView>,
    lowest: int,
)
    requires
        0 <= lowest < batch.len(),
        forall|i: int|
            #![trigger batch[i]]
            0 <= i < batch.len() ==> batch[i].id is Number && batch[lowest].id->Number_0
                <= batch[i].id->Number_0,
    ensures
        ({
            let id = batch[lowest].id->Number_0;
            let delivery = map.delivery(JsonRpcResponsesView::Batch(batch));
            let after = map.after_delivery(JsonRpcResponsesView::Batch(batch));
            &&& map.batches.contains_key(id) ==> {
                &&& delivery is Batch
                &&& delivery->Batch_sender == map.batches[id]
                &&& delivery->results.len() == batch.len()
                &&& exists|sorted: Seq<JsonRpcResponseView>|
                    {
                        &&& #[trigger] sorted.to_multiset() == batch.to_multiset()
                        &&& sorted.len() == batch.len()
                        &&& forall|i: int, j: int|
                            #![trigger sorted[i], sorted[j]]
                            0 <= i < j < sorted.len() ==> sorted[i].id is Number
                                && sorted[j].id is Number && sorted[i].id->Number_0
                                <= sorted[j].id->Number_0
                        &&& forall|k: int|
                            #![trigger sorted[k]]
                            0 <= k < sorted.len() ==> delivery->results[k] == sorted[k].result
                    }
                &&& after.batches == map.batches.remove(id)
            }
            &&& !map.batches.contains_key(id) ==> delivery is Nowhere && after == map
            &&& after.singles == map.singles
            &&& after.next_id == map.next_id
        }),
{
    let sorted = id_order::by_id(batch);
    id_order::sorting_keeps_all(batch);
    id_order::lowest_id_comes_first(batch, lowest);
    assert forall|i: int, j: int|
        #![trigger sorted[i], sorted[j]]
        0 <= i < j < sorted.len() implies sorted[i].id is Number && sorted[j].id is Number
        && sorted[i].id->Number_0 <= sorted[j].id->Number_0 by {
        if i > 0 {
            id_order::sorted_ids_do_not_fall(batch, 0, i);
        }
        id_order::sorted_ids_do_not_fall(batch, i, j);
    }
    if map.batches.contains_key(batch[lowest].id->Number_0) {
        let delivery = map.delivery(JsonRpcResponsesView::Batch(batch));
        assert forall|k: int| #![trigger sorted[k]] 0 <= k < sorted.len() implies delivery->results[k]
            == sorted[k].result by {}
    }
}

/// Responses of which some id is no number, and no responses at all, go nowhere.
pub proof fn batch_with_another_id_goes_nowhere<S, B>(
    map: ResponseMapView<S, B>,
    batch: Seq<JsonRpcResponseView>,
)
    requires
        batch.len() == 0 || exists|i: int|
            0 <= i < batch.len() && !((#[trigger] batch[i]).id is Number),
    ensures
        map.delivery(JsonRpcResponsesView::Batch(batch)) is Nowhere,
        map.after_delivery(JsonRpcResponsesView::Batch(batch)) == map,
{
    id_order::sorting_keeps_all(batch);
    if batch.len() > 0 {
        let i = choose|i: int| 0 <= i < batch.len() && !((#[trigger] batch[i]).id is Number);
        id_order::other_ids_come_first(batch, i);
    }
}

/// No two responses carry the same id.
pub open spec fn ids_differ(responses: Seq<JsonRpcResponseView>) -> bool {
    forall|i: int, j: int|
        #![trigger responses[i], responses[j]]
        0 <= i < j < responses.len() ==> responses[i].id != responses[j].id
}

/// As long as no two responses of a batch carry the same id, it does not matter in which order they
/// come: the same results go to the same place, and the same wait on.
pub proof fn batch_comes_in_any_order<S, B>(
    map: ResponseMapView<S, B>,
    batch: Seq<JsonRpcResponseView>,
    other: Seq<JsonRpcResponseView>,
)
    requires
        batch.to_multiset() == other.to_multiset(),
        ids_differ(batch),
    ensures
        map.delivery(JsonRpcResponsesView::Batch(batch)) == map.delivery(
            JsonRpcResponsesView::Batch(other),
        ),
        map.after_delivery(JsonRpcResponsesView::Batch(batch)) == map.after_delivery(
            JsonRpcResponsesView::Batch(other),
        ),
{
    if forall|i: int| 0 <= i < batch.len() ==> (#[trigger] batch[i]).id is Number {
        assert(id_order::ranks_differ(batch)) by {
            assert forall|i: int, j: int|
                #![trigger batch[i], batch[j]]
                0 <= i < j < batch.len() implies id_order::rank(batch[i].id) != id_order::rank(
                batch[j].id,
            ) by {
                assert(batch[i].id is Number && batch[j].id is Number);
            }
        }
        id_order::order_of_arrival_does_not_matter(batch, other);
    } else {
        let i = choose|i: int| 0 <= i < batch.len() && !((#[trigger] batch[i]).id is Number);
        batch.to_multiset_ensures();
        other.to_multiset_ensures();
        assert(batch.contains(batch[i]));
        assert(other.to_multiset().count(batch[i]) > 0);
        assert(other.contains(batch[i]));
        let j = choose|j: int| 0 <= j < other.len() && other[j] == batch[i];
        id_order::other_ids_come_first(batch, i);
        id_order::other_ids_come_first(other, j);
    }
}

impl<S, B> ResponseMap<S, B> {
    /// Who waits, and the next id.
    pub closed spec fn view(&self) -> ResponseMapView<S, B> {
        ResponseMapView {
            next_id: self.next_id,
            singles: self.response_map@,
            batches: self.batch_response_map@,
        }
    }

    /// Starts with nobody who waits.
    pub fn new() -> (map: ResponseMap<S, B>)
        ensures
            map@ == ResponseMapView::<S, B>::empty(),
    {
        ResponseMap { next_id: 0, response_map: HashMap::new(), batch_response_map: HashMap::new() }
    }

    /// Lets `sender` wait for the response to a single call; gives the id of the call. The
    /// numbering starts over behind the greatest number. Until then the id is a new one.
    pub fn insert_single(&mut self, sender: S) -> (id: i64)
        ensures
            id == old(self)@.next_id,
            final(self)@ == (ResponseMapView::<S, B> {
                next_id: old(self)@.next_id.wrapping_add(1),
                singles: old(self)@.singles.insert(id, sender),
                batches: old(self)@.batches,
            }),
            old(self)@.ids_given_out() && id < i64::MAX ==> {
                &&& final(self)@.ids_given_out()
                &&& !old(self)@.singles.contains_key(id)
            },
    {
        let id: i64 = self.next_id;
        self.next_id = self.next_id.wrapping_add(1);
        self.response_map.insert(id, sender);
        assert(id < i64::MAX ==> self.next_id == id + 1);
        id
    }

    /// Lets `sender` wait for the responses to `len` calls; gives the id of the first, the others
    /// count up from it. The numbering starts over behind the greatest number. Until then, unless
    /// the batch is without calls, the ids are new ones.
    pub fn insert_batch(&mut self, len: usize, sender: B) -> (id: i64)
        ensures
            id == old(self)@.next_id,
            final(self)@ == (ResponseMapView::<S, B> {
                next_id: old(self)@.next_id.wrapping_add(
                    #[verifier::truncate]
                    (len as i64),
                ),
                singles: old(self)@.singles,
                batches: old(self)@.batches.insert(id, sender),
            }),
            old(self)@.ids_given_out() && 0 < len && id + len <= i64::MAX ==> {
                &&& final(self)@.ids_given_out()
                &&& !old(self)@.batches.contains_key(id)
            },
    {
        let id: i64 = self.next_id;
        self.next_id = self.next_id.wrapping_add(
            #[verifier::truncate]
            (len as i64),
        );
        self.batch_response_map.insert(id, sender);
        proof {
            if old(self)@.ids_given_out() && 0 < len && id + len <= i64::MAX {
                assert(self@.next_id == id + len);
                assert(!old(self)@.batches.contains_key(id));
                assert forall|k: i64| #[trigger] self@.batches.contains_key(k) implies k
                    < self@.next_id by {
                    assert(k == id || old(self)@.batches.contains_key(k));
                }
                assert forall|k: i64| #[trigger] self@.singles.contains_key(k) implies k
                    < self@.next_id by {
                    assert(old(self)@.singles.contains_key(k));
                }
            }
        }
        id
    }

    /// Finds out where the results of incoming responses go, and takes whoever gets them out.
    pub fn handle_incoming_response(&mut self, responses: JsonRpcResponses) -> (delivery: Delivery<
        S,
        B,
    >)
        ensures
            delivery@ == old(self)@.delivery(responses@),
            final(self)@ == old(self)@.after_delivery(responses@),
    {
        match responses {
            JsonRpcResponses::Single(response) => {
                let JsonRpcResponse { id, result } = response;
                let id: i64 = match id {
                    JsonRpcId::Number(id) => id,
                    _ => return Delivery::Nowhere,
                };
                match self.response_map.remove(&id) {
                    Some(sender) => Delivery::Single { sender, result },
                    None => {
                        assert(self@.singles =~= old(self)@.singles);
                        Delivery::Nowhere
                    },
                }
            },
            JsonRpcResponses::Batch(responses) => {
                let sorted = sort_by_id(responses);
                let ghost sorted_view = json_rpc_responses::responses_view(sorted@);
                if sorted.len() == 0 {
                    return Delivery::Nowhere;
                }
                assert(sorted_view[0] == sorted@[0]@);
                let initial_id: i64 = match &sorted[0].id {
                    JsonRpcId::Number(initial_id) => *initial_id,
                    _ => return Delivery::Nowhere,
                };
                let sender = match self.batch_response_map.remove(&initial_id) {
                    Some(sender) => sender,
                    None => {
                        assert(self@.batches =~= old(self)@.batches);
                        return Delivery::Nowhere;
                    },
                };
                let mut results: Vec<Result<JsonValue, JsonRpcError>> = Vec::new();
                for response in rest: sorted
                    invariant
                        rest.seq() == sorted@,
                        results@.len() == rest.index(),
                        forall|i: int|
                            #![trigger results@[i]]
                            0 <= i < results@.len() ==> results@[i] == sorted@[i].result,
                {
                    assert(response == sorted@[rest.index() as int]);
                    results.push(response.result);
                }
                assert(results_view(results@) =~= results_of(sorted_view));
                Delivery::Batch { sender, results }
            },
        }
    }
}

} // verus!
