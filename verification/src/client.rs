//! What a client sends, and what it is told when that fails.

use crate::json_codec::JsonTextError;
use crate::json_types::json_rpc_id::JsonRpcIdView;
use crate::json_types::json_rpc_message::JsonRpcMessageView;
use crate::json_types::json_rpc_params;
use crate::json_types::json_rpc_params::JsonRpcParamsView;
use crate::json_types::json_rpc_request::JsonRpcRequestView;
use crate::json_types::json_rpc_requests;
use crate::json_types::json_rpc_requests::JsonRpcRequestsView;
use crate::json_types::json_rpc_response::JsonRpcResponseView;
use crate::json_types::json_rpc_responses::JsonRpcResponsesView;
use crate::json_types::{JsonRpcId, JsonRpcMessage, JsonRpcParams, JsonRpcRequest, JsonRpcRequests};
use crate::json_value;
use crate::json_value::{JsonValue, JsonView};
use crate::message_io::io_error_words;
use crate::sequences;
use crate::service;
use crate::service::HandleMethodErrorView;
use crate::session::response_map;
use crate::session::response_map::{DeliveryView, ResponseMapView};
use crate::session::state;
use crate::text;
use crate::text::join;
use vstd::prelude::*;

verus! {

/// Why a request was not sent, or why its response did not come.
#[derive(Debug)]
pub enum ClientSendRequestError {
    Io { source: std::io::Error },
    ConnectionDropped,
}

/// Why a notification was not sent.
#[derive(Debug)]
#[allow(inconsistent_fields)]
pub enum ClientSendNotificationError {
    Io { source: std::io::Error },
    ConnectionDropped,
    Serialize { source: JsonTextError },
}

/// Why a method call gave nothing. `E` says why what came back could not be read.
#[derive(Debug)]
#[allow(inconsistent_fields)]
pub enum ClientCallMethodError<E> {
    Io { source: std::io::Error },
    ConnectionDropped,
    Serialize { source: JsonTextError },
    ParseResponse { source: E },
}

/// A method with its parameters.
pub struct InvocationView {
    pub method: Seq<char>,
    pub params: Option<JsonRpcParamsView>,
}

/// Notifications and method calls that are to be sent together.
#[derive(Debug)]
pub struct JsonRpcClientBatchRequestBuilder {
    notifications: Vec<(String, Option<JsonRpcParams>)>,
    method_calls: Vec<(String, Option<JsonRpcParams>)>,
}

/// What a `JsonRpcClientBatchRequestBuilder` is.
pub struct BatchView {
    pub notifications: Seq<InvocationView>,
    pub method_calls: Seq<InvocationView>,
}

/// What methods with their parameters are.
pub open spec fn invocations_view(invocations: Seq<(String, Option<JsonRpcParams>)>) -> Seq<
    InvocationView,
> {
    invocations.map_values(
        |invocation: (String, Option<JsonRpcParams>)|
            InvocationView {
                method: invocation.0@,
                params: json_rpc_params::params_option_view(invocation.1),
            },
    )
}

/// The request that a method with its parameters makes.
pub open spec fn request_of(invocation: InvocationView, id: Option<JsonRpcIdView>) -> JsonRpcRequestView {
    JsonRpcRequestView { method: invocation.method, params: invocation.params, id }
}

/// The requests that notifications make: they have no ids.
pub open spec fn notification_requests(notifications: Seq<InvocationView>) -> Seq<
    JsonRpcRequestView,
> {
    notifications.map_values(|invocation: InvocationView| request_of(invocation, None))
}

/// The requests that method calls make: their ids count up from `first`.
pub open spec fn call_requests(method_calls: Seq<InvocationView>, first: int) -> Seq<
    JsonRpcRequestView,
> {
    Seq::new(
        method_calls.len(),
        |i: int|
            request_of(method_calls[i], Some(JsonRpcIdView::Number((first + i) as i64))),
    )
}

impl BatchView {
    /// The requests that are sent: the notifications, then the method calls.
    pub open spec fn requests(self, first: int) -> Seq<JsonRpcRequestView> {
        notification_requests(self.notifications) + call_requests(self.method_calls, first)
    }
}

/// What is sent for a batch are its notifications and then its method calls, each in their order,
/// with their own methods and parameters. The notifications have no ids, and those of the method
/// calls count up from `first`.
pub proof fn batch_is_sent_as_it_is(batch: BatchView, first: int, i: int)
    requires
        i64::MIN <= first,
        first + batch.method_calls.len() <= i64::MAX,
    ensures
        batch.requests(first).len() == batch.notifications.len() + batch.method_calls.len(),
        0 <= i < batch.notifications.len() ==> {
            let request = batch.requests(first)[i];
            &&& request.method == batch.notifications[i].method
            &&& request.params == batch.notifications[i].params
            &&& request.id is None
        },
        0 <= i < batch.method_calls.len() ==> {
            let request = batch.requests(first)[batch.notifications.len() + i];
            &&& request.method == batch.method_calls[i].method
            &&& request.params == batch.method_calls[i].params
            &&& request.id is Some && request.id->0 is Number
            &&& request.id->0->Number_0 == first + i
        },
{
}

/// The result of each call of a batch comes at the index of the call, in whatever order the
/// responses come: `answers` are the responses, each under the id of the call at its index.
pub proof fn batch_answers_come_back_in_order<S, B>(
    map: ResponseMapView<S, B>,
    batch: BatchView,
    first: i64,
    answers: Seq<JsonRpcResponseView>,
    responses: Seq<JsonRpcResponseView>,
)
    requires
        map.batches.contains_key(first),
        batch.method_calls.len() > 0,
        first + batch.method_calls.len() <= i64::MAX,
        answers.len() == batch.method_calls.len(),
        forall|i: int|
            #![trigger answers[i]]
            0 <= i < answers.len() ==> batch.requests(first as int)[batch.notifications.len()
                + i].id == Some(answers[i].id),
        responses.to_multiset() == answers.to_multiset(),
    ensures
        map.delivery(JsonRpcResponsesView::Batch(responses)) == (DeliveryView::Batch::<S, B> {
            sender: map.batches[first],
            results: response_map::results_of(answers),
        }),
{
    assert forall|i: int| #![trigger answers[i]] 0 <= i < answers.len() implies answers[i].id is Number
        && answers[i].id->Number_0 == first + i by {
        let requests = batch.requests(first as int);
        assert(requests[batch.notifications.len() + i] == call_requests(
            batch.method_calls,
            first as int,
        )[i]);
    }
    response_map::batch_results_in_call_order(map, first, answers, responses);
}

proof fn calls_are_counted_behind(a: Seq<JsonRpcRequestView>, b: Seq<JsonRpcRequestView>)
    ensures
        state::method_calls(a + b) == state::method_calls(a) + state::method_calls(b),
    decreases b.len(),
{
    if b.len() == 0 {
        assert(a + b =~= a);
    } else {
        assert((a + b).drop_last() =~= a + b.drop_last());
        calls_are_counted_behind(a, b.drop_last());
    }
}

proof fn notifications_are_no_calls(notifications: Seq<InvocationView>)
    ensures
        state::method_calls(notification_requests(notifications)) == 0,
    decreases notifications.len(),
{
    let requests = notification_requests(notifications);
    if notifications.len() > 0 {
        notifications_are_no_calls(notifications.drop_last());
        assert(requests.drop_last() =~= notification_requests(notifications.drop_last()));
    }
}

proof fn each_call_is_counted(method_calls: Seq<InvocationView>, first: int)
    ensures
        state::method_calls(call_requests(method_calls, first)) == method_calls.len(),
    decreases method_calls.len(),
{
    let requests = call_requests(method_calls, first);
    if method_calls.len() > 0 {
        each_call_is_counted(method_calls.drop_last(), first);
        assert(requests.drop_last() =~= call_requests(method_calls.drop_last(), first));
    }
}

/// The response that the other end makes to each call of a batch, going by what came of each.
pub open spec fn answers_to(
    batch: BatchView,
    first: int,
    outcomes: Seq<Result<JsonView, HandleMethodErrorView>>,
) -> Seq<JsonRpcResponseView> {
    Seq::new(
        outcomes.len(),
        |i: int|
            service::call_response(
                JsonRpcIdView::Number((first + i) as i64),
                batch.method_calls[i].method,
                outcomes[i],
            )->0,
    )
}

/// What came of each call of a batch at the other end comes back at the index of the call. At the
/// other end the calls are finished in whatever order, and answered with one message; `finished`
/// are the responses in that order.
pub proof fn batch_comes_back_in_order<S, B>(
    map: ResponseMapView<S, B>,
    batch: BatchView,
    first: i64,
    outcomes: Seq<Result<JsonView, HandleMethodErrorView>>,
    finished: Seq<JsonRpcResponseView>,
)
    requires
        map.batches.contains_key(first),
        batch.method_calls.len() > 0,
        first + batch.method_calls.len() <= i64::MAX,
        outcomes.len() == batch.method_calls.len(),
        forall|i: int|
            #![trigger outcomes[i]]
            0 <= i < outcomes.len() ==> outcomes[i] != Err::<JsonView, HandleMethodErrorView>(
                HandleMethodErrorView::DropConnection,
            ),
        finished.to_multiset() == answers_to(batch, first as int, outcomes).to_multiset(),
    ensures
        state::outputs(
            state::pending_for(JsonRpcRequestsView::Batch(batch.requests(first as int))),
            finished,
        ) == seq![JsonRpcResponsesView::Batch(finished)],
        map.delivery(JsonRpcResponsesView::Batch(finished)) == (DeliveryView::Batch::<S, B> {
            sender: map.batches[first],
            results: response_map::results_of(answers_to(batch, first as int, outcomes)),
        }),
{
    let answers = answers_to(batch, first as int, outcomes);
    let requests = batch.requests(first as int);
    answers.to_multiset_ensures();
    finished.to_multiset_ensures();
    notifications_are_no_calls(batch.notifications);
    each_call_is_counted(batch.method_calls, first as int);
    calls_are_counted_behind(
        notification_requests(batch.notifications),
        call_requests(batch.method_calls, first as int),
    );
    state::batch_waits_for_its_calls(requests);
    state::message_is_answered_once(JsonRpcRequestsView::Batch(requests), finished);
    assert forall|i: int| #![trigger answers[i]] 0 <= i < answers.len() implies requests[
        batch.notifications.len() + i].id == Some(answers[i].id) by {
        service::call_is_answered(
            JsonRpcIdView::Number((first + i) as i64),
            batch.method_calls[i].method,
            outcomes[i],
        );
        assert(requests[batch.notifications.len() + i] == call_requests(
            batch.method_calls,
            first as int,
        )[i]);
    }
    batch_answers_come_back_in_order(map, batch, first, answers, finished);
}

/// What came of a single call at the other end comes back to whoever waits under its id.
pub proof fn call_comes_back<S, B>(
    map: ResponseMapView<S, B>,
    call: InvocationView,
    id: i64,
    outcome: Result<JsonView, HandleMethodErrorView>,
)
    requires
        map.singles.contains_key(id),
        outcome != Err::<JsonView, HandleMethodErrorView>(HandleMethodErrorView::DropConnection),
    ensures
        ({
            let request = JsonRpcRequestsView::Single(
                request_of(call, Some(JsonRpcIdView::Number(id))),
            );
            let response = service::call_response(
                JsonRpcIdView::Number(id),
                call.method,
                outcome,
            )->0;
            &&& state::outputs(state::pending_for(request), seq![response]) == seq![
                JsonRpcResponsesView::Single(response),
            ]
            &&& map.delivery(JsonRpcResponsesView::Single(response)) == DeliveryView::Single::<
                S,
                B,
            > { sender: map.singles[id], result: response.result }
        }),
{
    let request = JsonRpcRequestsView::Single(request_of(call, Some(JsonRpcIdView::Number(id))));
    let response = service::call_response(JsonRpcIdView::Number(id), call.method, outcome)->0;
    service::call_is_answered(JsonRpcIdView::Number(id), call.method, outcome);
    reveal_with_fuel(state::call_tasks, 2);
    state::message_is_answered_once(request, seq![response]);
}

/// Makes the message that a notification is sent as.
pub fn notification_message(method: &str, params: Option<JsonRpcParams>) -> (message:
    JsonRpcMessage)
    ensures
        message@ == JsonRpcMessageView::Request(
            JsonRpcRequestsView::Single(
                JsonRpcRequestView {
                    method: method@,
                    params: json_rpc_params::params_option_view(params),
                    id: None,
                },
            ),
        ),
{
    JsonRpcMessage::Request(
        JsonRpcRequests::Single(JsonRpcRequest { method: method.to_owned(), params, id: None }),
    )
}

/// Makes the message that a method call is sent as.
pub fn method_call_message(id: i64, method: &str, params: Option<JsonRpcParams>) -> (message:
    JsonRpcMessage)
    ensures
        message@ == JsonRpcMessageView::Request(
            JsonRpcRequestsView::Single(
                JsonRpcRequestView {
                    method: method@,
                    params: json_rpc_params::params_option_view(params),
                    id: Some(JsonRpcIdView::Number(id)),
                },
            ),
        ),
{
    JsonRpcMessage::Request(
        JsonRpcRequests::Single(
            JsonRpcRequest {
                method: method.to_owned(),
                params,
                id: Some(JsonRpcId::Number(id)),
            },
        ),
    )
}

/// Makes the parameters of a call out of its arguments: by position, and none where there are no
/// arguments.
pub fn positional_params(arguments: Vec<JsonValue>) -> (params: Option<JsonRpcParams>)
    ensures
        json_rpc_params::params_option_view(params) == if arguments@.len() == 0 {
            None
        } else {
            Some(JsonRpcParamsView::Array(json_value::values_view(arguments@)))
        },
{
    if arguments.len() == 0 {
        None
    } else {
        Some(JsonRpcParams::Array(arguments))
    }
}

/// The arguments that could not be written.
pub open spec fn not_written() -> spec_fn(Result<JsonValue, JsonTextError>) -> bool {
    |argument: Result<JsonValue, JsonTextError>| argument is Err
}

/// Makes the parameters of a call out of its arguments, each of which was written as a JSON value
/// or could not be: then the error of the first that could not comes back.
pub fn params_to_json(arguments: Vec<Result<JsonValue, JsonTextError>>) -> (params: Result<
    Option<JsonRpcParams>,
    JsonTextError,
>)
    ensures
        match params {
            Ok(params) => {
                &&& sequences::first_index(arguments@, not_written()) is None
                &&& json_rpc_params::params_option_view(params) == if arguments@.len() == 0 {
                    None
                } else {
                    Some(
                        JsonRpcParamsView::Array(
                            arguments@.map_values(
                                |argument: Result<JsonValue, JsonTextError>| argument->Ok_0@,
                            ),
                        ),
                    )
                }
            },
            Err(error) => {
                &&& sequences::first_index(arguments@, not_written()) is Some
                &&& arguments@[sequences::first_index(arguments@, not_written())->0] == Err::<
                    JsonValue,
                    JsonTextError,
                >(error)
            },
        },
{
    let mut values: Vec<JsonValue> = Vec::with_capacity(arguments.len());
    for argument in rest: arguments
        invariant
            rest.seq() == arguments@,
            values@.len() == rest.index(),
            forall|i: int|
                #![trigger arguments@[i]]
                0 <= i < values@.len() ==> arguments@[i] == Ok::<JsonValue, JsonTextError>(
                    values@[i],
                ),
    {
        let ghost n = rest.index() as int;
        assert(argument == arguments@[n]);
        match argument {
            Ok(value) => values.push(value),
            Err(error) => {
                proof {
                    sequences::first_index_found(arguments@, not_written(), n);
                }
                return Err(error);
            },
        }
    }
    proof {
        sequences::first_index_exists(arguments@, not_written());
        assert(json_value::values_view(values@) =~= arguments@.map_values(
            |argument: Result<JsonValue, JsonTextError>| argument->Ok_0@,
        ));
    }
    Ok(positional_params(values))
}

/// Takes what came of sending a notification.
pub fn after_notification(sent: Result<(), ClientSendRequestError>) -> (result: Result<
    (),
    ClientSendNotificationError,
>)
    ensures
        match sent {
            Ok(_) => result == Ok::<(), ClientSendNotificationError>(()),
            Err(ClientSendRequestError::Io { source }) => result == Err::<
                (),
                ClientSendNotificationError,
            >(ClientSendNotificationError::Io { source }),
            Err(ClientSendRequestError::ConnectionDropped) => result == Err::<
                (),
                ClientSendNotificationError,
            >(ClientSendNotificationError::ConnectionDropped),
        },
{
    match sent {
        Ok(_) => Ok(()),
        Err(error) => Err(ClientSendNotificationError::from(error)),
    }
}

/// Takes what came of a method call: the value that was read out of its result, or why none could
/// be, or the error `J` that came in place of a result.
pub fn after_call<T, J, E>(called: Result<Result<Result<T, E>, J>, ClientSendRequestError>) -> (
    result: Result<Result<T, J>, ClientCallMethodError<E>>)
    ensures
        match called {
            Ok(Ok(Ok(value))) => result == Ok::<Result<T, J>, ClientCallMethodError<E>>(Ok(value)),
            Ok(Ok(Err(source))) => result == Err::<Result<T, J>, ClientCallMethodError<E>>(
                ClientCallMethodError::ParseResponse { source },
            ),
            Ok(Err(error)) => result == Ok::<Result<T, J>, ClientCallMethodError<E>>(Err(error)),
            Err(ClientSendRequestError::Io { source }) => result == Err::<
                Result<T, J>,
                ClientCallMethodError<E>,
            >(ClientCallMethodError::Io { source }),
            Err(ClientSendRequestError::ConnectionDropped) => result == Err::<
                Result<T, J>,
                ClientCallMethodError<E>,
            >(ClientCallMethodError::ConnectionDropped),
        },
{
    match called {
        Ok(Ok(Ok(value))) => Ok(Ok(value)),
        Ok(Ok(Err(source))) => Err(ClientCallMethodError::ParseResponse { source }),
        Ok(Err(error)) => Ok(Err(error)),
        Err(error) => Err(ClientCallMethodError::from(error)),
    }
}

/// Takes what came of writing a request; nothing was written where the connection was gone.
pub fn after_write(written: Option<Result<(), std::io::Error>>) -> (result: Result<
    (),
    ClientSendRequestError,
>)
    ensures
        match written {
            None => result == Err::<(), ClientSendRequestError>(
                ClientSendRequestError::ConnectionDropped,
            ),
            Some(Ok(_)) => result == Ok::<(), ClientSendRequestError>(()),
            Some(Err(source)) => result == Err::<(), ClientSendRequestError>(
                ClientSendRequestError::Io { source },
            ),
        },
{
    match written {
        None => Err(ClientSendRequestError::ConnectionDropped),
        Some(Ok(_)) => Ok(()),
        Some(Err(source)) => Err(ClientSendRequestError::Io { source }),
    }
}

/// Takes what came back; nothing comes back where the connection is dropped before.
pub fn after_wait<T>(received: Option<T>) -> (result: Result<T, ClientSendRequestError>)
    ensures
        result == match received {
            Some(value) => Ok::<T, ClientSendRequestError>(value),
            None => Err(ClientSendRequestError::ConnectionDropped),
        },
{
    match received {
        Some(value) => Ok(value),
        None => Err(ClientSendRequestError::ConnectionDropped),
    }
}

impl JsonRpcClientBatchRequestBuilder {
    /// What is to be sent.
    pub closed spec fn view(&self) -> BatchView {
        BatchView {
            notifications: invocations_view(self.notifications@),
            method_calls: invocations_view(self.method_calls@),
        }
    }

    /// Starts with nothing to be sent.
    pub fn new() -> (builder: JsonRpcClientBatchRequestBuilder)
        ensures
            builder@ == (BatchView { notifications: Seq::empty(), method_calls: Seq::empty() }),
    {
        let builder = JsonRpcClientBatchRequestBuilder {
            notifications: Vec::new(),
            method_calls: Vec::new(),
        };
        assert(invocations_view(builder.notifications@) =~= Seq::empty());
        assert(invocations_view(builder.method_calls@) =~= Seq::empty());
        builder
    }

    /// Adds a notification.
    pub fn notify(&mut self, method: &str, params: Option<JsonRpcParams>)
        ensures
            final(self)@ == (BatchView {
                notifications: old(self)@.notifications.push(
                    InvocationView {
                        method: method@,
                        params: json_rpc_params::params_option_view(params),
                    },
                ),
                ..old(self)@
            }),
    {
        self.notifications.push((method.to_owned(), params));
        assert(self@.notifications =~= old(self)@.notifications.push(
            InvocationView {
                method: method@,
                params: json_rpc_params::params_option_view(params),
            },
        ));
    }

    /// Adds a method call.
    pub fn call_method(&mut self, method: &str, params: Option<JsonRpcParams>)
        ensures
            final(self)@ == (BatchView {
                method_calls: old(self)@.method_calls.push(
                    InvocationView {
                        method: method@,
                        params: json_rpc_params::params_option_view(params),
                    },
                ),
                ..old(self)@
            }),
    {
        self.method_calls.push((method.to_owned(), params));
        assert(self@.method_calls =~= old(self)@.method_calls.push(
            InvocationView {
                method: method@,
                params: json_rpc_params::params_option_view(params),
            },
        ));
    }

    /// How many method calls there are, each of which takes an id.
    pub fn num_method_calls(&self) -> (n: usize)
        ensures
            n == self@.method_calls.len(),
    {
        self.method_calls.len()
    }

    /// Makes the message that is sent, with `first_id` as the id of the first method call.
    pub fn into_message(self, first_id: i64) -> (message: JsonRpcMessage)
        requires
            first_id + self@.method_calls.len() <= i64::MAX,
        ensures
            message@ == JsonRpcMessageView::Request(
                JsonRpcRequestsView::Batch(self@.requests(first_id as int)),
            ),
    {
        let ghost all = self@;
        let mut requests: Vec<JsonRpcRequest> = Vec::new();
        let notifications = self.notifications;
        let method_calls = self.method_calls;
        for invocation in rest: notifications
            invariant
                rest.seq() == notifications@,
                requests@.len() == rest.index(),
                forall|i: int|
                    #![trigger requests@[i]]
                    0 <= i < requests@.len() ==> requests@[i]@ == request_of(
                        invocations_view(notifications@)[i],
                        None,
                    ),
        {
            assert(invocation == notifications@[rest.index() as int]);
            let (method, params) = invocation;
            requests.push(JsonRpcRequest { method, params, id: None });
        }
        let ghost before = requests@;
        let mut id: i64 = first_id;
        for invocation in rest: method_calls
            invariant
                rest.seq() == method_calls@,
                before.len() == notifications@.len(),
                first_id + method_calls@.len() <= i64::MAX,
                id == first_id + rest.index(),
                requests@.len() == before.len() + rest.index(),
                forall|i: int|
                    #![trigger requests@[i]]
                    0 <= i < before.len() ==> requests@[i] == before[i],
                forall|i: int|
                    #![trigger requests@[before.len() + i]]
                    0 <= i < rest.index() ==> requests@[before.len() + i]@ == request_of(
                        invocations_view(method_calls@)[i],
                        Some(JsonRpcIdView::Number((first_id + i) as i64)),
                    ),
        {
            assert(invocation == method_calls@[rest.index() as int]);
            let (method, params) = invocation;
            requests.push(JsonRpcRequest { method, params, id: Some(JsonRpcId::Number(id)) });
            id = id + 1;
        }
        proof {
            let sent = json_rpc_requests::requests_view(requests@);
            let expected = all.requests(first_id as int);
            assert forall|i: int| 0 <= i < sent.len() implies #[trigger] sent[i] == expected[i] by {
                if i < before.len() {
                    assert(requests@[i] == before[i]);
                } else {
                    assert(requests@[before.len() + (i - before.len())]@ == request_of(
                        invocations_view(method_calls@)[i - before.len()],
                        Some(JsonRpcIdView::Number((first_id + (i - before.len())) as i64)),
                    ));
                }
            }
            assert(sent =~= expected);
        }
        JsonRpcMessage::Request(JsonRpcRequests::Batch(requests))
    }
}

/// The words of what went wrong stand at the end of what is said.
pub proof fn client_errors_tell_their_cause<E>(
    sent: ClientSendRequestError,
    notified: ClientSendNotificationError,
    called: ClientCallMethodError<E>,
    io_words: Seq<char>,
    parse_words: Seq<char>,
)
    ensures
        sent is Io ==> text::ends_with(sent.text(io_words), io_words),
        notified is Io ==> text::ends_with(notified.text(io_words), io_words),
        notified matches ClientSendNotificationError::Serialize { source } ==> text::ends_with(
            notified.text(io_words),
            source.message@,
        ),
        called is Io ==> text::ends_with(called.text(io_words, parse_words), io_words),
        called matches ClientCallMethodError::Serialize { source } ==> text::ends_with(
            called.text(io_words, parse_words),
            source.message@,
        ),
        called is ParseResponse ==> text::ends_with(
            called.text(io_words, parse_words),
            parse_words,
        ),
{
    text::what_is_put_behind_ends_it("io error sending request: "@, io_words);
    text::what_is_put_behind_ends_it("io error sending notification: "@, io_words);
    text::what_is_put_behind_ends_it("io error calling method: "@, io_words);
    text::what_is_put_behind_ends_it("error parsing response: "@, parse_words);
    match notified {
        ClientSendNotificationError::Serialize { source } => {
            text::what_is_put_behind_ends_it("error serializing parameters: "@, source.message@);
        },
        _ => {},
    }
    match called {
        ClientCallMethodError::Serialize { source } => {
            text::what_is_put_behind_ends_it("error serializing parameters: "@, source.message@);
        },
        _ => {},
    }
}

impl ClientSendRequestError {
    /// The error in words; `io_words` are the words of an error of output.
    pub open spec fn text(self, io_words: Seq<char>) -> Seq<char> {
        match self {
            ClientSendRequestError::Io { .. } => "io error sending request: "@ + io_words,
            ClientSendRequestError::ConnectionDropped =>
                "the connection to the server has been dropped"@,
        }
    }

    /// Says in words what went wrong; `io_words` are the words of an error of output.
    pub fn message_with(&self, io_words: &str) -> (words: String)
        ensures
            words@ == self.text(io_words@),
    {
        match self {
            ClientSendRequestError::Io { .. } => join("io error sending request: ", io_words),
            ClientSendRequestError::ConnectionDropped =>
                "the connection to the server has been dropped".to_owned(),
        }
    }

    /// Says in words what went wrong. The words of an error of output are those of the machine:
    /// which they are is not said.
    pub fn message(&self) -> (words: String)
        ensures
            exists|io_words: Seq<char>| words@ == #[trigger] self.text(io_words),
    {
        match self {
            ClientSendRequestError::Io { source } => self.message_with(
                io_error_words(source).as_str(),
            ),
            ClientSendRequestError::ConnectionDropped => self.message_with(""),
        }
    }
}

impl From<ClientSendRequestError> for ClientSendNotificationError {
    fn from(error: ClientSendRequestError) -> (converted: ClientSendNotificationError) {
        match error {
            ClientSendRequestError::Io { source } => ClientSendNotificationError::Io { source },
            ClientSendRequestError::ConnectionDropped =>
                ClientSendNotificationError::ConnectionDropped,
        }
    }
}

impl vstd::std_specs::convert::FromSpecImpl<ClientSendRequestError> for ClientSendNotificationError {
    open spec fn obeys_from_spec() -> bool {
        true
    }

    open spec fn from_spec(error: ClientSendRequestError) -> ClientSendNotificationError {
        match error {
            ClientSendRequestError::Io { source } => ClientSendNotificationError::Io { source },
            ClientSendRequestError::ConnectionDropped =>
                ClientSendNotificationError::ConnectionDropped,
        }
    }
}

impl<E> From<ClientSendRequestError> for ClientCallMethodError<E> {
    fn from(error: ClientSendRequestError) -> (converted: ClientCallMethodError<E>) {
        match error {
            ClientSendRequestError::Io { source } => ClientCallMethodError::Io { source },
            ClientSendRequestError::ConnectionDropped => ClientCallMethodError::ConnectionDropped,
        }
    }
}

impl<E> vstd::std_specs::convert::FromSpecImpl<ClientSendRequestError> for ClientCallMethodError<E> {
    open spec fn obeys_from_spec() -> bool {
        true
    }

    open spec fn from_spec(error: ClientSendRequestError) -> ClientCallMethodError<E> {
        match error {
            ClientSendRequestError::Io { source } => ClientCallMethodError::Io { source },
            ClientSendRequestError::ConnectionDropped => ClientCallMethodError::ConnectionDropped,
        }
    }
}

impl ClientSendNotificationError {
    /// The error in words; `io_words` are the words of an error of output.
    pub open spec fn text(self, io_words: Seq<char>) -> Seq<char> {
        match self {
            ClientSendNotificationError::Io { .. } => "io error sending notification: "@
                + io_words,
            ClientSendNotificationError::ConnectionDropped =>
                "connection with server has been dropped"@,
            ClientSendNotificationError::Serialize { source } => "error serializing parameters: "@
                + source.message@,
        }
    }

    /// Says in words what went wrong; `io_words` are the words of an error of output.
    pub fn message_with(&self, io_words: &str) -> (words: String)
        ensures
            words@ == self.text(io_words@),
    {
        match self {
            ClientSendNotificationError::Io { .. } => join(
                "io error sending notification: ",
                io_words,
            ),
            ClientSendNotificationError::ConnectionDropped =>
                "connection with server has been dropped".to_owned(),
            ClientSendNotificationError::Serialize { source } => join(
                "error serializing parameters: ",
                source.message.as_str(),
            ),
        }
    }

    /// Says in words what went wrong. The words of an error of output are those of the machine:
    /// which they are is not said.
    pub fn message(&self) -> (words: String)
        ensures
            exists|io_words: Seq<char>| words@ == #[trigger] self.text(io_words),
    {
        match self {
            ClientSendNotificationError::Io { source } => self.message_with(
                io_error_words(source).as_str(),
            ),
            _ => self.message_with(""),
        }
    }
}

impl<E> ClientCallMethodError<E> {
    /// The error in words; `io_words` are the words of an error of output, `parse_words` those of
    /// the error that `E` is.
    pub open spec fn text(self, io_words: Seq<char>, parse_words: Seq<char>) -> Seq<char> {
        match self {
            ClientCallMethodError::Io { .. } => "io error calling method: "@ + io_words,
            ClientCallMethodError::ConnectionDropped => "connection with server has been dropped"@,
            ClientCallMethodError::Serialize { source } => "error serializing parameters: "@
                + source.message@,
            ClientCallMethodError::ParseResponse { .. } => "error parsing response: "@
                + parse_words,
        }
    }

    /// Says in words what went wrong; `io_words` are the words of an error of output, `parse_words`
    /// those of the error that `E` is.
    pub fn message_with(&self, io_words: &str, parse_words: &str) -> (words: String)
        ensures
            words@ == self.text(io_words@, parse_words@),
    {
        match self {
            ClientCallMethodError::Io { .. } => join("io error calling method: ", io_words),
            ClientCallMethodError::ConnectionDropped =>
                "connection with server has been dropped".to_owned(),
            ClientCallMethodError::Serialize { source } => join(
                "error serializing parameters: ",
                source.message.as_str(),
            ),
            ClientCallMethodError::ParseResponse { .. } => join(
                "error parsing response: ",
                parse_words,
            ),
        }
    }

    /// Says in words what went wrong; `parse_words` are the words of the error that `E` is. The
    /// words of an error of output are those of the machine: which they are is not said.
    pub fn message(&self, parse_words: &str) -> (words: String)
        ensures
            exists|io_words: Seq<char>| words@ == #[trigger] self.text(io_words, parse_words@),
    {
        match self {
            ClientCallMethodError::Io { source } => self.message_with(
                io_error_words(source).as_str(),
                parse_words,
            ),
            _ => self.message_with("", parse_words),
        }
    }
}

} // verus!
