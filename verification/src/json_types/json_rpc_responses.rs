use crate::json_types::json_rpc_response;
use crate::json_types::json_rpc_response::{JsonRpcResponseFromJsonErrorView, JsonRpcResponseView};
use crate::json_types::{JsonRpcResponse, JsonRpcResponseFromJsonError};
use crate::json_value;
use crate::json_value::{JsonValue, JsonView};
use crate::sequences;
use crate::text::join;
use vstd::prelude::*;

verus! {

/// One response, or several that were sent together.
#[derive(Debug, PartialEq)]
pub enum JsonRpcResponses {
    Single(JsonRpcResponse),
    Batch(Vec<JsonRpcResponse>),
}

/// What a single response or a batch is.
pub enum JsonRpcResponsesView {
    Single(JsonRpcResponseView),
    Batch(Seq<JsonRpcResponseView>),
}

/// Why a JSON value is neither a response nor a batch.
#[derive(Debug, PartialEq)]
pub enum JsonRpcResponsesFromJsonError {
    MalformedResponse { source: JsonRpcResponseFromJsonError },
    EmptyBatchArray,
    InvalidJsonType,
}

/// What a `JsonRpcResponsesFromJsonError` is.
pub enum JsonRpcResponsesFromJsonErrorView {
    MalformedResponse { source: JsonRpcResponseFromJsonErrorView },
    EmptyBatchArray,
    InvalidJsonType,
}

/// What responses are.
pub open spec fn responses_view(responses: Seq<JsonRpcResponse>) -> Seq<JsonRpcResponseView> {
    responses.map_values(|response: JsonRpcResponse| response@)
}

/// The JSON values that responses are written as.
pub open spec fn responses_to_json(responses: Seq<JsonRpcResponseView>) -> Seq<JsonView> {
    responses.map_values(|response: JsonRpcResponseView| response.to_json())
}

impl JsonRpcResponsesView {
    /// A single response as a JSON object, a batch as a JSON array.
    pub open spec fn to_json(self) -> JsonView {
        match self {
            JsonRpcResponsesView::Single(response) => response.to_json(),
            JsonRpcResponsesView::Batch(responses) => JsonView::Array(responses_to_json(responses)),
        }
    }
}

/// The JSON values that are no response.
pub open spec fn malformed_response() -> spec_fn(JsonView) -> bool {
    |json: JsonView| json_rpc_response::response_from_json(json) is Err
}

/// The responses that the items of a batch are, where each is one; else the index of the first item
/// that is none, and what is wrong with it.
pub open spec fn responses_from_items(items: Seq<JsonView>) -> Result<
    Seq<JsonRpcResponseView>,
    (int, JsonRpcResponseFromJsonErrorView),
> {
    match sequences::first_index(items, malformed_response()) {
        Some(index) => Err((index, json_rpc_response::response_from_json(items[index])->Err_0)),
        None => Ok(
            items.map_values(|json: JsonView| json_rpc_response::response_from_json(json)->Ok_0),
        ),
    }
}

/// The response or the batch that a JSON value is.
pub open spec fn responses_from_json(json: JsonView) -> Result<
    JsonRpcResponsesView,
    JsonRpcResponsesFromJsonErrorView,
> {
    match json {
        JsonView::Object(_) => match json_rpc_response::response_from_json(json) {
            Ok(response) => Ok(JsonRpcResponsesView::Single(response)),
            Err(source) => Err(JsonRpcResponsesFromJsonErrorView::MalformedResponse { source }),
        },
        JsonView::Array(items) => if items.len() == 0 {
            Err(JsonRpcResponsesFromJsonErrorView::EmptyBatchArray)
        } else {
            match responses_from_items(items) {
                Ok(responses) => Ok(JsonRpcResponsesView::Batch(responses)),
                Err((_, source)) => Err(
                    JsonRpcResponsesFromJsonErrorView::MalformedResponse { source },
                ),
            }
        },
        _ => Err(JsonRpcResponsesFromJsonErrorView::InvalidJsonType),
    }
}

/// What reading a response or a batch gave.
pub open spec fn responses_read(read: Result<JsonRpcResponses, JsonRpcResponsesFromJsonError>) -> Result<
    JsonRpcResponsesView,
    JsonRpcResponsesFromJsonErrorView,
> {
    match read {
        Ok(value) => Ok(value@),
        Err(error) => Err(error@),
    }
}

/// The items of a batch read back from the JSON values they are written as are the same responses.
pub proof fn responses_items_round_trip(responses: Seq<JsonRpcResponseView>)
    ensures
        responses_from_items(responses_to_json(responses)) == Ok::<
            Seq<JsonRpcResponseView>,
            (int, JsonRpcResponseFromJsonErrorView),
        >(responses),
{
    let items = responses_to_json(responses);
    assert forall|i: int| 0 <= i < items.len() implies json_rpc_response::response_from_json(
        #[trigger] items[i],
    ) == Ok::<JsonRpcResponseView, JsonRpcResponseFromJsonErrorView>(responses[i]) by {
        json_rpc_response::response_round_trip(responses[i]);
    }
    sequences::first_index_exists(items, malformed_response());
    assert(responses_from_items(items)->Ok_0 =~= responses);
}

/// The items of a batch that are responses are the JSON values that the responses are written as.
pub proof fn responses_are_written_back(items: Seq<JsonView>)
    requires
        responses_from_items(items) is Ok,
    ensures
        responses_to_json(responses_from_items(items)->Ok_0) == items,
{
    sequences::first_index_exists(items, malformed_response());
    let written = responses_to_json(responses_from_items(items)->Ok_0);
    assert forall|i: int| 0 <= i < items.len() implies #[trigger] written[i] == items[i] by {
        assert(!malformed_response()(items[i]));
        json_rpc_response::response_is_written_back(items[i]);
    }
    assert(written =~= items);
}

/// The items of a batch are read one by one: each as it would be alone, and in their order. Where one
/// cannot be read, the first that cannot is told, and what is wrong with it.
pub proof fn responses_are_read_one_by_one(items: Seq<JsonView>, i: int)
    ensures
        responses_from_items(items) is Ok ==> responses_from_items(items)->Ok_0.len() == items.len(),
        responses_from_items(items) is Ok && 0 <= i < items.len()
            ==> json_rpc_response::response_from_json(items[i]) == Ok::<
            JsonRpcResponseView,
            JsonRpcResponseFromJsonErrorView,
        >(responses_from_items(items)->Ok_0[i]),
        responses_from_items(items) matches Err((index, error)) ==> {
            &&& 0 <= index < items.len()
            &&& json_rpc_response::response_from_json(items[index]) == Err::<
                JsonRpcResponseView,
                JsonRpcResponseFromJsonErrorView,
            >(error)
            &&& 0 <= i < index ==> json_rpc_response::response_from_json(items[i]) is Ok
        },
{
    sequences::first_index_exists(items, malformed_response());
    if sequences::first_index(items, malformed_response()) is Some {
        sequences::first_index_is_first(items, malformed_response(), i);
        let n = sequences::first_index(items, malformed_response())->0;
        assert(malformed_response()(items[n]));
    } else if 0 <= i < items.len() {
        assert(!malformed_response()(items[i]));
    }
}

/// What is wrong with a response or a batch is what is told of it: of a batch, what is wrong with the first
/// item that cannot be read.
pub proof fn responses_are_refused_for_a_reason(json: JsonView)
    requires
        responses_from_json(json) is Err,
    ensures
        match responses_from_json(json)->Err_0 {
            JsonRpcResponsesFromJsonErrorView::InvalidJsonType => !(json is Object)
                && !(json is Array),
            JsonRpcResponsesFromJsonErrorView::EmptyBatchArray => json is Array
                && json->Array_0.len() == 0,
            JsonRpcResponsesFromJsonErrorView::MalformedResponse { source } => {
                ||| json is Object && json_rpc_response::response_from_json(json) == Err::<
                    JsonRpcResponseView,
                    JsonRpcResponseFromJsonErrorView,
                >(source)
                ||| json is Array && responses_from_items(json->Array_0) is Err && responses_from_items(
                    json->Array_0,
                )->Err_0.1 == source
            },
        },
{
}

/// A single response, or a batch with something in it, read back from the JSON value it is written as
/// is the same. An empty batch is the one thing that is written and not read back.
pub proof fn responses_round_trip(responses: JsonRpcResponsesView)
    requires
        responses matches JsonRpcResponsesView::Batch(batch) ==> batch.len() > 0,
    ensures
        responses_from_json(responses.to_json()) == Ok::<
            JsonRpcResponsesView,
            JsonRpcResponsesFromJsonErrorView,
        >(responses),
{
    match responses {
        JsonRpcResponsesView::Single(response) => {
            json_rpc_response::response_round_trip(response);
        },
        JsonRpcResponsesView::Batch(batch) => {
            responses_items_round_trip(batch);
        },
    }
}

/// Reads the responses that the items of a batch are; the error has the index of the first item
/// that is none.
pub fn read_response_items(items: Vec<JsonValue>) -> (read: Result<
    Vec<JsonRpcResponse>,
    (usize, JsonRpcResponseFromJsonError),
>)
    ensures
        match read {
            Ok(responses) => responses_from_items(json_value::values_view(items@)) == Ok::<
                Seq<JsonRpcResponseView>,
                (int, JsonRpcResponseFromJsonErrorView),
            >(responses_view(responses@)),
            Err((index, source)) => responses_from_items(json_value::values_view(items@)) == Err::<
                Seq<JsonRpcResponseView>,
                (int, JsonRpcResponseFromJsonErrorView),
            >((index as int, source@)),
        },
{
    let ghost all = json_value::values_view(items@);
    let mut responses: Vec<JsonRpcResponse> = Vec::new();
    for item in rest: items
        invariant
            rest.seq() == items@,
            all == json_value::values_view(items@),
            responses@.len() == rest.index(),
            forall|i: int|
                #![trigger all[i]]
                0 <= i < responses@.len() ==> json_rpc_response::response_from_json(all[i]) == Ok::<
                    JsonRpcResponseView,
                    JsonRpcResponseFromJsonErrorView,
                >(responses@[i]@),
    {
        assert(item@ == all[rest.index() as int]);
        let index: usize = responses.len();
        match JsonRpcResponse::try_from(item) {
            Ok(response) => responses.push(response),
            Err(source) => {
                proof {
                    sequences::first_index_found(all, malformed_response(), index as int);
                }
                return Err((index, source));
            },
        }
    }
    proof {
        sequences::first_index_exists(all, malformed_response());
        assert(responses_view(responses@) =~= responses_from_items(all)->Ok_0);
    }
    Ok(responses)
}

/// Writes each of several responses as a JSON value.
pub fn write_response_items(responses: Vec<JsonRpcResponse>) -> (items: Vec<JsonValue>)
    ensures
        json_value::values_view(items@) == responses_to_json(responses_view(responses@)),
{
    let mut items: Vec<JsonValue> = Vec::new();
    for response in rest: responses
        invariant
            rest.seq() == responses@,
            items@.len() == rest.index(),
            forall|i: int|
                #![trigger items@[i]]
                0 <= i < items@.len() ==> items@[i]@ == responses@[i]@.to_json(),
    {
        assert(response == responses@[rest.index() as int]);
        items.push(JsonValue::from(response));
    }
    assert(json_value::values_view(items@) =~= responses_to_json(responses_view(responses@)));
    items
}

impl JsonRpcResponses {
    /// What the response or the batch is.
    pub open spec fn view(&self) -> JsonRpcResponsesView {
        match *self {
            JsonRpcResponses::Single(response) => JsonRpcResponsesView::Single(response@),
            JsonRpcResponses::Batch(responses) =>
                JsonRpcResponsesView::Batch(responses_view(responses@)),
        }
    }
}

impl Clone for JsonRpcResponses {
    fn clone(&self) -> (copy: JsonRpcResponses)
        ensures
            copy@ == self@,
    {
        match self {
            JsonRpcResponses::Single(response) => JsonRpcResponses::Single(response.clone()),
            JsonRpcResponses::Batch(responses) => {
                let mut copies: Vec<JsonRpcResponse> = Vec::new();
                for i in 0..responses.len()
                    invariant
                        copies@.len() == i,
                        forall|k: int|
                            #![trigger copies@[k]]
                            0 <= k < i ==> copies@[k]@ == responses@[k]@,
                {
                    copies.push(responses[i].clone());
                }
                assert(responses_view(copies@) =~= responses_view(responses@));
                JsonRpcResponses::Batch(copies)
            },
        }
    }
}

impl From<JsonRpcResponses> for JsonValue {
    fn from(json_rpc_responses: JsonRpcResponses) -> (json: JsonValue)
        ensures
            json@ == json_rpc_responses@.to_json(),
    {
        match json_rpc_responses {
            JsonRpcResponses::Single(response) => JsonValue::from(response),
            JsonRpcResponses::Batch(responses) => JsonValue::Array(write_response_items(responses)),
        }
    }
}

impl vstd::std_specs::convert::FromSpecImpl<JsonRpcResponses> for JsonValue {
    open spec fn obeys_from_spec() -> bool {
        false
    }

    open spec fn from_spec(json_rpc_responses: JsonRpcResponses) -> JsonValue {
        arbitrary()
    }
}

impl TryFrom<JsonValue> for JsonRpcResponses {
    type Error = JsonRpcResponsesFromJsonError;

    fn try_from(json: JsonValue) -> (read: Result<JsonRpcResponses, JsonRpcResponsesFromJsonError>)
        ensures
            responses_read(read) == responses_from_json(json@),
    {
        match json {
            JsonValue::Object(map) => match JsonRpcResponse::try_from(JsonValue::Object(map)) {
                Ok(response) => Ok(JsonRpcResponses::Single(response)),
                Err(source) => Err(JsonRpcResponsesFromJsonError::MalformedResponse { source }),
            },
            JsonValue::Array(items) => {
                if items.len() == 0 {
                    return Err(JsonRpcResponsesFromJsonError::EmptyBatchArray);
                }
                match read_response_items(items) {
                    Ok(responses) => Ok(JsonRpcResponses::Batch(responses)),
                    Err((_, source)) => Err(
                        JsonRpcResponsesFromJsonError::MalformedResponse { source },
                    ),
                }
            },
            _ => Err(JsonRpcResponsesFromJsonError::InvalidJsonType),
        }
    }
}

impl vstd::std_specs::convert::TryFromSpecImpl<JsonValue> for JsonRpcResponses {
    open spec fn obeys_try_from_spec() -> bool {
        false
    }

    open spec fn try_from_spec(json: JsonValue) -> Result<JsonRpcResponses, JsonRpcResponsesFromJsonError> {
        arbitrary()
    }
}

impl JsonRpcResponsesFromJsonErrorView {
    /// The error in words.
    pub open spec fn text(self) -> Seq<char> {
        match self {
            JsonRpcResponsesFromJsonErrorView::MalformedResponse { source } => "malformed response: "@
                + source.text(),
            JsonRpcResponsesFromJsonErrorView::EmptyBatchArray => "empty batch array"@,
            JsonRpcResponsesFromJsonErrorView::InvalidJsonType =>
                "expected a response json object or json array of responses"@,
        }
    }
}

impl JsonRpcResponsesFromJsonError {
    /// What the error is.
    pub open spec fn view(&self) -> JsonRpcResponsesFromJsonErrorView {
        match *self {
            JsonRpcResponsesFromJsonError::MalformedResponse { source } => JsonRpcResponsesFromJsonErrorView::MalformedResponse {
                source: source@,
            },
            JsonRpcResponsesFromJsonError::EmptyBatchArray =>
                JsonRpcResponsesFromJsonErrorView::EmptyBatchArray,
            JsonRpcResponsesFromJsonError::InvalidJsonType =>
                JsonRpcResponsesFromJsonErrorView::InvalidJsonType,
        }
    }

    /// Says in words what is wrong.
    pub fn message(&self) -> (message: String)
        ensures
            message@ == self@.text(),
    {
        match self {
            JsonRpcResponsesFromJsonError::MalformedResponse { source } => join(
                "malformed response: ",
                source.message().as_str(),
            ),
            JsonRpcResponsesFromJsonError::EmptyBatchArray => "empty batch array".to_owned(),
            JsonRpcResponsesFromJsonError::InvalidJsonType =>
                "expected a response json object or json array of responses".to_owned(),
        }
    }
}

} // verus!
