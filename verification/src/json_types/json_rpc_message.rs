use crate::json_types::json_rpc_request;
use crate::json_types::json_rpc_request::JsonRpcRequestFromJsonErrorView;
use crate::json_types::json_rpc_requests;
use crate::json_types::json_rpc_requests::{read_request_items, JsonRpcRequestsView};
use crate::json_types::json_rpc_response;
use crate::json_types::json_rpc_response::{JsonRpcResponseFromJsonErrorView, JsonRpcResponseView};
use crate::json_types::json_rpc_responses;
use crate::json_types::json_rpc_responses::{read_response_items, JsonRpcResponsesView};
use crate::json_types::{
    JsonRpcRequest, JsonRpcRequestFromJsonError, JsonRpcRequests, JsonRpcResponse,
    JsonRpcResponseFromJsonError, JsonRpcResponses,
};
use crate::json_value;
use crate::json_value::{JsonMap, JsonValue, JsonView};
use crate::sequences;
use crate::text;
use crate::text::{decimal, join, join3};
use vstd::prelude::*;

verus! {

/// What goes over a connection, in either direction.
#[derive(Debug, PartialEq)]
pub enum JsonRpcMessage {
    Request(JsonRpcRequests),
    Response(JsonRpcResponses),
}

/// What a message is.
pub enum JsonRpcMessageView {
    Request(JsonRpcRequestsView),
    Response(JsonRpcResponsesView),
}

/// Why a JSON value is no message.
#[derive(Debug, PartialEq)]
#[allow(inconsistent_fields)]
pub enum JsonRpcMessageFromJsonError {
    MalformedRequest { source: JsonRpcRequestFromJsonError },
    MalformedRequestInBatch { index: usize, source: JsonRpcRequestFromJsonError },
    MalformedResponse { source: JsonRpcResponseFromJsonError },
    MalformedResponseInBatch { index: usize, source: JsonRpcResponseFromJsonError },
    MalformedObject,
    MalformedObjectInBatch { index: usize },
    InvalidJsonType,
    InvalidJsonTypeInBatch { index: usize },
    HeterogeneousBatchMessage,
    EmptyBatchArray,
}

/// What a `JsonRpcMessageFromJsonError` is.
#[allow(inconsistent_fields)]
pub enum JsonRpcMessageFromJsonErrorView {
    MalformedRequest { source: JsonRpcRequestFromJsonErrorView },
    MalformedRequestInBatch { index: nat, source: JsonRpcRequestFromJsonErrorView },
    MalformedResponse { source: JsonRpcResponseFromJsonErrorView },
    MalformedResponseInBatch { index: nat, source: JsonRpcResponseFromJsonErrorView },
    MalformedObject,
    MalformedObjectInBatch { index: nat },
    InvalidJsonType,
    InvalidJsonTypeInBatch { index: nat },
    HeterogeneousBatchMessage,
    EmptyBatchArray,
}

/// What an object is taken for, going by the names of its fields.
#[derive(Debug, Clone, Copy, PartialEq, Eq, Structural)]
pub enum MessageKind {
    Request,
    Response,
    Neither,
}

/// An object with a method is taken for a request; one with a result or an error, for a response.
pub open spec fn kind_of(fields: Map<Seq<char>, JsonView>) -> MessageKind {
    if fields.contains_key("method"@) {
        MessageKind::Request
    } else if fields.contains_key("result"@) || fields.contains_key("error"@) {
        MessageKind::Response
    } else {
        MessageKind::Neither
    }
}

/// What a JSON value is taken for: nothing but objects are messages.
pub open spec fn json_kind(json: JsonView) -> MessageKind {
    match json {
        JsonView::Object(fields) => kind_of(fields),
        _ => MessageKind::Neither,
    }
}

/// The JSON values that are taken neither for a request nor for a response.
pub open spec fn no_message() -> spec_fn(JsonView) -> bool {
    |json: JsonView| json_kind(json) == MessageKind::Neither
}

/// Each of the items is taken for a message of the given kind.
pub open spec fn all_of_kind(items: Seq<JsonView>, kind: MessageKind) -> bool {
    forall|i: int| #![trigger items[i]] 0 <= i < items.len() ==> json_kind(items[i]) == kind
}

impl JsonRpcMessageView {
    /// The message as a JSON value.
    pub open spec fn to_json(self) -> JsonView {
        match self {
            JsonRpcMessageView::Request(requests) => requests.to_json(),
            JsonRpcMessageView::Response(responses) => responses.to_json(),
        }
    }
}

/// The message that a batch with the given items is. First each item must be an object that is
/// taken for a request or for a response, then all must be of one kind, then each must be read.
pub open spec fn message_from_items(items: Seq<JsonView>) -> Result<
    JsonRpcMessageView,
    JsonRpcMessageFromJsonErrorView,
> {
    match sequences::first_index(items, no_message()) {
        Some(index) => if items[index] is Object {
            Err(JsonRpcMessageFromJsonErrorView::MalformedObjectInBatch { index: index as nat })
        } else {
            Err(JsonRpcMessageFromJsonErrorView::InvalidJsonTypeInBatch { index: index as nat })
        },
        None => if items.len() == 0 {
            Err(JsonRpcMessageFromJsonErrorView::EmptyBatchArray)
        } else if all_of_kind(items, MessageKind::Request) {
            match json_rpc_requests::requests_from_items(items) {
                Ok(requests) => Ok(
                    JsonRpcMessageView::Request(JsonRpcRequestsView::Batch(requests)),
                ),
                Err((index, source)) => Err(
                    JsonRpcMessageFromJsonErrorView::MalformedRequestInBatch {
                        index: index as nat,
                        source,
                    },
                ),
            }
        } else if all_of_kind(items, MessageKind::Response) {
            match json_rpc_responses::responses_from_items(items) {
                Ok(responses) => Ok(
                    JsonRpcMessageView::Response(JsonRpcResponsesView::Batch(responses)),
                ),
                Err((index, source)) => Err(
                    JsonRpcMessageFromJsonErrorView::MalformedResponseInBatch {
                        index: index as nat,
                        source,
                    },
                ),
            }
        } else {
            Err(JsonRpcMessageFromJsonErrorView::HeterogeneousBatchMessage)
        },
    }
}

/// The message that a JSON value is.
pub open spec fn message_from_json(json: JsonView) -> Result<
    JsonRpcMessageView,
    JsonRpcMessageFromJsonErrorView,
> {
    match json {
        JsonView::Object(fields) => match kind_of(fields) {
            MessageKind::Request => match json_rpc_request::request_from_json(json) {
                Ok(request) => Ok(
                    JsonRpcMessageView::Request(JsonRpcRequestsView::Single(request)),
                ),
                Err(source) => Err(JsonRpcMessageFromJsonErrorView::MalformedRequest { source }),
            },
            MessageKind::Response => match json_rpc_response::response_from_json(json) {
                Ok(response) => Ok(
                    JsonRpcMessageView::Response(JsonRpcResponsesView::Single(response)),
                ),
                Err(source) => Err(JsonRpcMessageFromJsonErrorView::MalformedResponse { source }),
            },
            MessageKind::Neither => Err(JsonRpcMessageFromJsonErrorView::MalformedObject),
        },
        JsonView::Array(items) => message_from_items(items),
        _ => Err(JsonRpcMessageFromJsonErrorView::InvalidJsonType),
    }
}

/// What reading a message gave.
pub open spec fn message_read(read: Result<JsonRpcMessage, JsonRpcMessageFromJsonError>) -> Result<
    JsonRpcMessageView,
    JsonRpcMessageFromJsonErrorView,
> {
    match read {
        Ok(value) => Ok(value@),
        Err(error) => Err(error@),
    }
}

/// The message is no empty batch.
pub open spec fn not_empty(message: JsonRpcMessageView) -> bool {
    match message {
        JsonRpcMessageView::Request(JsonRpcRequestsView::Batch(requests)) => requests.len() > 0,
        JsonRpcMessageView::Response(JsonRpcResponsesView::Batch(responses)) => responses.len() > 0,
        _ => true,
    }
}

/// A message read back from the JSON value it is written as is the same message. An empty batch
/// is the one thing that is written and not read back.
pub proof fn message_round_trip(message: JsonRpcMessageView)
    requires
        not_empty(message),
    ensures
        message_from_json(message.to_json()) == Ok::<
            JsonRpcMessageView,
            JsonRpcMessageFromJsonErrorView,
        >(message),
{
    crate::json_types::field_names_differ();
    match message {
        JsonRpcMessageView::Request(JsonRpcRequestsView::Single(request)) => {
            json_rpc_request::request_round_trip(request);
        },
        JsonRpcMessageView::Response(JsonRpcResponsesView::Single(response)) => {
            json_rpc_response::response_round_trip(response);
        },
        JsonRpcMessageView::Request(JsonRpcRequestsView::Batch(requests)) => {
            let items = json_rpc_requests::requests_to_json(requests);
            assert(all_of_kind(items, MessageKind::Request));
            sequences::first_index_exists(items, no_message());
            json_rpc_requests::requests_items_round_trip(requests);
        },
        JsonRpcMessageView::Response(JsonRpcResponsesView::Batch(responses)) => {
            let items = json_rpc_responses::responses_to_json(responses);
            assert(all_of_kind(items, MessageKind::Response));
            assert(json_kind(items[0]) != MessageKind::Request);
            sequences::first_index_exists(items, no_message());
            json_rpc_responses::responses_items_round_trip(responses);
        },
    }
}

/// A JSON value that is a message is the JSON value that the message is written as.
pub proof fn message_is_written_back(json: JsonView)
    requires
        message_from_json(json) is Ok,
    ensures
        message_from_json(json)->Ok_0.to_json() == json,
{
    match json {
        JsonView::Object(fields) => match kind_of(fields) {
            MessageKind::Request => {
                json_rpc_request::request_is_written_back(json);
            },
            MessageKind::Response => {
                json_rpc_response::response_is_written_back(json);
            },
            MessageKind::Neither => {},
        },
        JsonView::Array(items) => {
            if all_of_kind(items, MessageKind::Request) {
                json_rpc_requests::requests_are_written_back(items);
            } else {
                json_rpc_responses::responses_are_written_back(items);
            }
        },
        _ => {},
    }
}

/// An object with a method is taken for a request, whatever else it holds; one without, for a response
/// where it holds a result or an error; and nothing else is taken for either.
pub proof fn kind_is_told_by_the_fields(json: JsonView)
    ensures
        json_kind(json) == MessageKind::Request <==> json is Object
            && json->Object_0.contains_key("method"@),
        json_kind(json) == MessageKind::Response <==> json is Object
            && !json->Object_0.contains_key("method"@) && (json->Object_0.contains_key("result"@)
            || json->Object_0.contains_key("error"@)),
{
}

/// A batch is told to mix requests and responses exactly where each item is taken for one of the two
/// and there are both; what is wrong with an item comes only behind that.
pub proof fn mixed_batches_are_refused(items: Seq<JsonView>, i: int, j: int)
    requires
        forall|k: int|
            #![trigger items[k]]
            0 <= k < items.len() ==> json_kind(items[k]) != MessageKind::Neither,
        0 <= i < items.len(),
        0 <= j < items.len(),
        json_kind(items[i]) == MessageKind::Request,
        json_kind(items[j]) == MessageKind::Response,
    ensures
        message_from_json(JsonView::Array(items)) == Err::<
            JsonRpcMessageView,
            JsonRpcMessageFromJsonErrorView,
        >(JsonRpcMessageFromJsonErrorView::HeterogeneousBatchMessage),
{
    sequences::first_index_exists(items, no_message());
}

/// What is wrong with a message is what is told of it. In a batch, the first item that is taken for
/// no message is told before anything else, then that requests and responses stand together, and
/// then the first item that cannot be read.
pub proof fn messages_are_refused_for_a_reason(json: JsonView, i: int)
    requires
        message_from_json(json) is Err,
    ensures
        match message_from_json(json)->Err_0 {
            JsonRpcMessageFromJsonErrorView::InvalidJsonType => !(json is Object) && !(json is Array),
            JsonRpcMessageFromJsonErrorView::MalformedObject => {
                &&& json is Object
                &&& !json->Object_0.contains_key("method"@)
                &&& !json->Object_0.contains_key("result"@)
                &&& !json->Object_0.contains_key("error"@)
            },
            JsonRpcMessageFromJsonErrorView::MalformedRequest { source } => {
                &&& json is Object
                &&& json->Object_0.contains_key("method"@)
                &&& json_rpc_request::request_from_json(json) is Err
                &&& json_rpc_request::request_from_json(json)->Err_0 == source
            },
            JsonRpcMessageFromJsonErrorView::MalformedResponse { source } => {
                &&& json is Object
                &&& !json->Object_0.contains_key("method"@)
                &&& json_rpc_response::response_from_json(json) is Err
                &&& json_rpc_response::response_from_json(json)->Err_0 == source
            },
            JsonRpcMessageFromJsonErrorView::EmptyBatchArray => json is Array
                && json->Array_0.len() == 0,
            JsonRpcMessageFromJsonErrorView::MalformedObjectInBatch { index } => {
                &&& json is Array
                &&& index < json->Array_0.len()
                &&& json->Array_0[index as int] is Object
                &&& json_kind(json->Array_0[index as int]) == MessageKind::Neither
                &&& 0 <= i < index ==> json_kind(json->Array_0[i]) != MessageKind::Neither
            },
            JsonRpcMessageFromJsonErrorView::InvalidJsonTypeInBatch { index } => {
                &&& json is Array
                &&& index < json->Array_0.len()
                &&& !(json->Array_0[index as int] is Object)
                &&& 0 <= i < index ==> json_kind(json->Array_0[i]) != MessageKind::Neither
            },
            JsonRpcMessageFromJsonErrorView::HeterogeneousBatchMessage => {
                &&& json is Array
                &&& exists|k: int|
                    0 <= k < json->Array_0.len() && json_kind(#[trigger] json->Array_0[k])
                        == MessageKind::Request
                &&& exists|k: int|
                    0 <= k < json->Array_0.len() && json_kind(#[trigger] json->Array_0[k])
                        == MessageKind::Response
            },
            JsonRpcMessageFromJsonErrorView::MalformedRequestInBatch { index, source } => {
                &&& json is Array
                &&& index < json->Array_0.len()
                &&& json_rpc_request::request_from_json(json->Array_0[index as int]) is Err
                &&& json_rpc_request::request_from_json(json->Array_0[index as int])->Err_0
                    == source
                &&& 0 <= i < index ==> json_rpc_request::request_from_json(
                    json->Array_0[i],
                ) is Ok
            },
            JsonRpcMessageFromJsonErrorView::MalformedResponseInBatch { index, source } => {
                &&& json is Array
                &&& index < json->Array_0.len()
                &&& json_rpc_response::response_from_json(json->Array_0[index as int]) is Err
                &&& json_rpc_response::response_from_json(json->Array_0[index as int])->Err_0
                    == source
                &&& 0 <= i < index ==> json_rpc_response::response_from_json(
                    json->Array_0[i],
                ) is Ok
            },
        },
{
    if json is Array {
        let items = json->Array_0;
        sequences::first_index_exists(items, no_message());
        if sequences::first_index(items, no_message()) is Some {
            sequences::first_index_is_first(items, no_message(), i);
            let n = sequences::first_index(items, no_message())->0;
            assert(no_message()(items[n]));
        } else {
            assert forall|k: int| 0 <= k < items.len() implies json_kind(#[trigger] items[k])
                != MessageKind::Neither by {
                assert(!no_message()(items[k]));
            }
            json_rpc_requests::requests_are_read_one_by_one(items, i);
            json_rpc_responses::responses_are_read_one_by_one(items, i);
            if !all_of_kind(items, MessageKind::Request) && !all_of_kind(
                items,
                MessageKind::Response,
            ) {
                let p = choose|p: int|
                    0 <= p < items.len() && json_kind(#[trigger] items[p]) != MessageKind::Request;
                let q = choose|q: int|
                    0 <= q < items.len() && json_kind(#[trigger] items[q]) != MessageKind::Response;
                assert(json_kind(items[p]) == MessageKind::Response);
                assert(json_kind(items[q]) == MessageKind::Request);
            }
        }
    }
}

/// A malformed request is answered, and nothing else that is no message is: the sender is told under
/// the id of the request, where it could be read.
pub proof fn only_malformed_requests_are_answered(error: JsonRpcMessageFromJsonErrorView)
    ensures
        error.error_response() is Some <==> error is MalformedRequest
            || error is MalformedRequestInBatch,
        error matches JsonRpcMessageFromJsonErrorView::MalformedRequest { source }
            ==> error.error_response() == Some(source.error_response()),
        error matches JsonRpcMessageFromJsonErrorView::MalformedRequestInBatch { index, source }
            ==> error.error_response() == Some(source.error_response()),
{
}

/// What is said of a message names what is wrong with it, and in a batch the index of the item that it
/// is about.
pub proof fn message_error_tells_its_cause(error: JsonRpcMessageFromJsonErrorView)
    ensures
        error matches JsonRpcMessageFromJsonErrorView::MalformedRequest { source }
            ==> text::ends_with(error.text(), source.text()),
        error matches JsonRpcMessageFromJsonErrorView::MalformedRequestInBatch { index, source }
            ==> text::ends_with(error.text(), source.text()) && text::holds(
            error.text(),
            text::decimal_text(index),
        ),
        error matches JsonRpcMessageFromJsonErrorView::MalformedResponse { source }
            ==> text::ends_with(error.text(), source.text()),
        error matches JsonRpcMessageFromJsonErrorView::MalformedResponseInBatch { index, source }
            ==> text::ends_with(error.text(), source.text()) && text::holds(
            error.text(),
            text::decimal_text(index),
        ),
        error matches JsonRpcMessageFromJsonErrorView::MalformedObjectInBatch { index }
            ==> text::ends_with(error.text(), text::decimal_text(index)),
        error matches JsonRpcMessageFromJsonErrorView::InvalidJsonTypeInBatch { index }
            ==> text::holds(error.text(), text::decimal_text(index)),
{
    match error {
        JsonRpcMessageFromJsonErrorView::MalformedRequest { source } => {
            text::what_is_put_behind_ends_it("malformed request: "@, source.text());
        },
        JsonRpcMessageFromJsonErrorView::MalformedRequestInBatch { index, source } => {
            let front = "malformed request at index "@;
            let number = text::decimal_text(index);
            text::what_is_put_behind_ends_it(front + number + ": "@, source.text());
            text::what_is_put_between_stands_there(front, number, ": "@ + source.text());
            assert(error.text() =~= front + number + (": "@ + source.text()));
        },
        JsonRpcMessageFromJsonErrorView::MalformedResponse { source } => {
            text::what_is_put_behind_ends_it("malformed response: "@, source.text());
        },
        JsonRpcMessageFromJsonErrorView::MalformedResponseInBatch { index, source } => {
            let front = "malformed response at index "@;
            let number = text::decimal_text(index);
            text::what_is_put_behind_ends_it(front + number + ": "@, source.text());
            text::what_is_put_between_stands_there(front, number, ": "@ + source.text());
            assert(error.text() =~= front + number + (": "@ + source.text()));
        },
        JsonRpcMessageFromJsonErrorView::MalformedObjectInBatch { index } => {
            text::what_is_put_behind_ends_it(
                "malformed request/response object at index "@,
                text::decimal_text(index),
            );
        },
        JsonRpcMessageFromJsonErrorView::InvalidJsonTypeInBatch { index } => {
            text::what_is_put_between_stands_there(
                "request/response at index "@,
                text::decimal_text(index),
                " is not an object"@,
            );
        },
        _ => {},
    }
}

/// An empty batch is written as an array that is no message.
pub proof fn empty_batch_is_refused()
    ensures
        message_from_json(
            JsonRpcMessageView::Request(JsonRpcRequestsView::Batch(Seq::empty())).to_json(),
        ) == Err::<JsonRpcMessageView, JsonRpcMessageFromJsonErrorView>(
            JsonRpcMessageFromJsonErrorView::EmptyBatchArray,
        ),
        message_from_json(
            JsonRpcMessageView::Response(JsonRpcResponsesView::Batch(Seq::empty())).to_json(),
        ) == Err::<JsonRpcMessageView, JsonRpcMessageFromJsonErrorView>(
            JsonRpcMessageFromJsonErrorView::EmptyBatchArray,
        ),
{
    sequences::first_index_exists(
        json_rpc_requests::requests_to_json(Seq::empty()),
        no_message(),
    );
    sequences::first_index_exists(
        json_rpc_responses::responses_to_json(Seq::empty()),
        no_message(),
    );
}

/// Tells what an object is taken for.
fn message_kind(map: &JsonMap) -> (kind: MessageKind)
    ensures
        kind == kind_of(map@),
{
    if map.contains_key("method") {
        MessageKind::Request
    } else if map.contains_key("result") || map.contains_key("error") {
        MessageKind::Response
    } else {
        MessageKind::Neither
    }
}

/// Reads the message that a batch with the given items is.
fn read_batch(items: Vec<JsonValue>) -> (read: Result<JsonRpcMessage, JsonRpcMessageFromJsonError>)
    ensures
        message_read(read) == message_from_items(json_value::values_view(items@)),
{
    let ghost all = json_value::values_view(items@);
    let mut all_requests = true;
    let mut all_responses = true;
    for index in 0..items.len()
        invariant
            all == json_value::values_view(items@),
            forall|i: int|
                #![trigger all[i]]
                0 <= i < index ==> json_kind(all[i]) != MessageKind::Neither,
            all_requests <==> forall|i: int|
                #![trigger all[i]]
                0 <= i < index ==> json_kind(all[i]) == MessageKind::Request,
            all_responses <==> forall|i: int|
                #![trigger all[i]]
                0 <= i < index ==> json_kind(all[i]) == MessageKind::Response,
    {
        assert(items@[index as int]@ == all[index as int]);
        let kind = match &items[index] {
            JsonValue::Object(map) => message_kind(map),
            _ => {
                proof {
                    sequences::first_index_found(all, no_message(), index as int);
                }
                return Err(JsonRpcMessageFromJsonError::InvalidJsonTypeInBatch { index });
            },
        };
        match kind {
            MessageKind::Request => {
                all_responses = false;
            },
            MessageKind::Response => {
                all_requests = false;
            },
            MessageKind::Neither => {
                proof {
                    sequences::first_index_found(all, no_message(), index as int);
                }
                return Err(JsonRpcMessageFromJsonError::MalformedObjectInBatch { index });
            },
        }
    }
    proof {
        sequences::first_index_exists(all, no_message());
        if all.len() > 0 {
            assert(json_kind(all[0]) != MessageKind::Neither);
        }
    }
    match (all_requests, all_responses) {
        (false, false) => Err(JsonRpcMessageFromJsonError::HeterogeneousBatchMessage),
        (true, false) => match read_request_items(items) {
            Ok(requests) => Ok(JsonRpcMessage::Request(JsonRpcRequests::Batch(requests))),
            Err((index, source)) => Err(
                JsonRpcMessageFromJsonError::MalformedRequestInBatch { index, source },
            ),
        },
        (false, true) => match read_response_items(items) {
            Ok(responses) => Ok(JsonRpcMessage::Response(JsonRpcResponses::Batch(responses))),
            Err((index, source)) => Err(
                JsonRpcMessageFromJsonError::MalformedResponseInBatch { index, source },
            ),
        },
        (true, true) => Err(JsonRpcMessageFromJsonError::EmptyBatchArray),
    }
}

impl JsonRpcMessage {
    /// What the message is.
    pub open spec fn view(&self) -> JsonRpcMessageView {
        match *self {
            JsonRpcMessage::Request(requests) => JsonRpcMessageView::Request(requests@),
            JsonRpcMessage::Response(responses) => JsonRpcMessageView::Response(responses@),
        }
    }
}

impl Clone for JsonRpcMessage {
    fn clone(&self) -> (copy: JsonRpcMessage)
        ensures
            copy@ == self@,
    {
        match self {
            JsonRpcMessage::Request(requests) => JsonRpcMessage::Request(requests.clone()),
            JsonRpcMessage::Response(responses) => JsonRpcMessage::Response(responses.clone()),
        }
    }
}

impl From<JsonRpcMessage> for JsonValue {
    fn from(json_rpc_message: JsonRpcMessage) -> (json: JsonValue)
        ensures
            json@ == json_rpc_message@.to_json(),
    {
        match json_rpc_message {
            JsonRpcMessage::Request(requests) => JsonValue::from(requests),
            JsonRpcMessage::Response(responses) => JsonValue::from(responses),
        }
    }
}

impl vstd::std_specs::convert::FromSpecImpl<JsonRpcMessage> for JsonValue {
    open spec fn obeys_from_spec() -> bool {
        false
    }

    open spec fn from_spec(json_rpc_message: JsonRpcMessage) -> JsonValue {
        arbitrary()
    }
}

impl TryFrom<JsonValue> for JsonRpcMessage {
    type Error = JsonRpcMessageFromJsonError;

    fn try_from(json: JsonValue) -> (read: Result<JsonRpcMessage, JsonRpcMessageFromJsonError>)
        ensures
            message_read(read) == message_from_json(json@),
    {
        match json {
            JsonValue::Object(map) => match message_kind(&map) {
                MessageKind::Request => match JsonRpcRequest::try_from(JsonValue::Object(map)) {
                    Ok(request) => Ok(JsonRpcMessage::Request(JsonRpcRequests::Single(request))),
                    Err(source) => Err(JsonRpcMessageFromJsonError::MalformedRequest { source }),
                },
                MessageKind::Response => match JsonRpcResponse::try_from(JsonValue::Object(map)) {
                    Ok(response) => Ok(
                        JsonRpcMessage::Response(JsonRpcResponses::Single(response)),
                    ),
                    Err(source) => Err(JsonRpcMessageFromJsonError::MalformedResponse { source }),
                },
                MessageKind::Neither => Err(JsonRpcMessageFromJsonError::MalformedObject),
            },
            JsonValue::Array(items) => read_batch(items),
            _ => Err(JsonRpcMessageFromJsonError::InvalidJsonType),
        }
    }
}

impl vstd::std_specs::convert::TryFromSpecImpl<JsonValue> for JsonRpcMessage {
    open spec fn obeys_try_from_spec() -> bool {
        false
    }

    open spec fn try_from_spec(json: JsonValue) -> Result<JsonRpcMessage, JsonRpcMessageFromJsonError> {
        arbitrary()
    }
}

impl JsonRpcMessageFromJsonErrorView {
    /// The error in words.
    pub open spec fn text(self) -> Seq<char> {
        match self {
            JsonRpcMessageFromJsonErrorView::MalformedRequest { source } =>
                "malformed request: "@ + source.text(),
            JsonRpcMessageFromJsonErrorView::MalformedRequestInBatch { index, source } =>
                "malformed request at index "@ + text::decimal_text(index) + ": "@ + source.text(),
            JsonRpcMessageFromJsonErrorView::MalformedResponse { source } =>
                "malformed response: "@ + source.text(),
            JsonRpcMessageFromJsonErrorView::MalformedResponseInBatch { index, source } =>
                "malformed response at index "@ + text::decimal_text(index) + ": "@ + source.text(),
            JsonRpcMessageFromJsonErrorView::MalformedObject =>
                "malformed request/response object"@,
            JsonRpcMessageFromJsonErrorView::MalformedObjectInBatch { index } =>
                "malformed request/response object at index "@ + text::decimal_text(index),
            JsonRpcMessageFromJsonErrorView::InvalidJsonType =>
                "json-rpc messages must be json arrays or json objects"@,
            JsonRpcMessageFromJsonErrorView::InvalidJsonTypeInBatch { index } =>
                "request/response at index "@ + text::decimal_text(index) + " is not an object"@,
            JsonRpcMessageFromJsonErrorView::HeterogeneousBatchMessage =>
                "batch array contains both requests and responses"@,
            JsonRpcMessageFromJsonErrorView::EmptyBatchArray => "empty batch array"@,
        }
    }

    /// What the sender is answered: a malformed request gets the response that names its fault,
    /// and nothing else gets one.
    pub open spec fn error_response(self) -> Option<JsonRpcResponseView> {
        match self {
            JsonRpcMessageFromJsonErrorView::MalformedRequest { source } => Some(
                source.error_response(),
            ),
            JsonRpcMessageFromJsonErrorView::MalformedRequestInBatch { source, .. } => Some(
                source.error_response(),
            ),
            _ => None,
        }
    }
}

impl JsonRpcMessageFromJsonError {
    /// What the error is.
    pub open spec fn view(&self) -> JsonRpcMessageFromJsonErrorView {
        match *self {
            JsonRpcMessageFromJsonError::MalformedRequest { source } =>
                JsonRpcMessageFromJsonErrorView::MalformedRequest {
                    source: source@,
                },
            JsonRpcMessageFromJsonError::MalformedRequestInBatch { index, source } =>
                JsonRpcMessageFromJsonErrorView::MalformedRequestInBatch {
                    index: index as nat,
                    source: source@,
                },
            JsonRpcMessageFromJsonError::MalformedResponse { source } =>
                JsonRpcMessageFromJsonErrorView::MalformedResponse {
                    source: source@,
                },
            JsonRpcMessageFromJsonError::MalformedResponseInBatch { index, source } =>
                JsonRpcMessageFromJsonErrorView::MalformedResponseInBatch {
                    index: index as nat,
                    source: source@,
                },
            JsonRpcMessageFromJsonError::MalformedObject =>
                JsonRpcMessageFromJsonErrorView::MalformedObject,
            JsonRpcMessageFromJsonError::MalformedObjectInBatch { index } =>
                JsonRpcMessageFromJsonErrorView::MalformedObjectInBatch {
                    index: index as nat,
                },
            JsonRpcMessageFromJsonError::InvalidJsonType =>
                JsonRpcMessageFromJsonErrorView::InvalidJsonType,
            JsonRpcMessageFromJsonError::InvalidJsonTypeInBatch { index } =>
                JsonRpcMessageFromJsonErrorView::InvalidJsonTypeInBatch {
                    index: index as nat,
                },
            JsonRpcMessageFromJsonError::HeterogeneousBatchMessage =>
                JsonRpcMessageFromJsonErrorView::HeterogeneousBatchMessage,
            JsonRpcMessageFromJsonError::EmptyBatchArray =>
                JsonRpcMessageFromJsonErrorView::EmptyBatchArray,
        }
    }

    /// Says in words what is wrong.
    pub fn message(&self) -> (message: String)
        ensures
            message@ == self@.text(),
    {
        match self {
            JsonRpcMessageFromJsonError::MalformedRequest { source } => join(
                "malformed request: ",
                source.message().as_str(),
            ),
            JsonRpcMessageFromJsonError::MalformedRequestInBatch { index, source } => join(
                join3("malformed request at index ", decimal(*index).as_str(), ": ").as_str(),
                source.message().as_str(),
            ),
            JsonRpcMessageFromJsonError::MalformedResponse { source } => join(
                "malformed response: ",
                source.message().as_str(),
            ),
            JsonRpcMessageFromJsonError::MalformedResponseInBatch { index, source } => join(
                join3("malformed response at index ", decimal(*index).as_str(), ": ").as_str(),
                source.message().as_str(),
            ),
            JsonRpcMessageFromJsonError::MalformedObject =>
                "malformed request/response object".to_owned(),
            JsonRpcMessageFromJsonError::MalformedObjectInBatch { index } => join(
                "malformed request/response object at index ",
                decimal(*index).as_str(),
            ),
            JsonRpcMessageFromJsonError::InvalidJsonType =>
                "json-rpc messages must be json arrays or json objects".to_owned(),
            JsonRpcMessageFromJsonError::InvalidJsonTypeInBatch { index } => join3(
                "request/response at index ",
                decimal(*index).as_str(),
                " is not an object",
            ),
            JsonRpcMessageFromJsonError::HeterogeneousBatchMessage =>
                "batch array contains both requests and responses".to_owned(),
            JsonRpcMessageFromJsonError::EmptyBatchArray => "empty batch array".to_owned(),
        }
    }

    /// The response that tells the sender what is wrong, where the message was a request.
    pub fn as_error_response(&self) -> (response: Option<JsonRpcResponse>)
        ensures
            json_rpc_response::response_option_view(response) == self@.error_response(),
    {
        match self {
            JsonRpcMessageFromJsonError::MalformedRequest { source } => Some(
                source.as_error_response(),
            ),
            JsonRpcMessageFromJsonError::MalformedRequestInBatch { source, .. } => Some(
                source.as_error_response(),
            ),
            _ => None,
        }
    }
}

} // verus!
