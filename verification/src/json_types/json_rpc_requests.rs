use crate::json_types::json_rpc_request;
use crate::json_types::json_rpc_request::{JsonRpcRequestFromJsonErrorView, JsonRpcRequestView};
use crate::json_types::{JsonRpcRequest, JsonRpcRequestFromJsonError};
use crate::json_value;
use crate::json_value::{JsonValue, JsonView};
use crate::sequences;
use crate::text::join;
use vstd::prelude::*;

verus! {

/// One request, or several that were sent together.
#[derive(Debug, PartialEq)]
pub enum JsonRpcRequests {
    Single(JsonRpcRequest),
    Batch(Vec<JsonRpcRequest>),
}

/// What a single request or a batch is.
pub enum JsonRpcRequestsView {
    Single(JsonRpcRequestView),
    Batch(Seq<JsonRpcRequestView>),
}

/// Why a JSON value is neither a request nor a batch.
#[derive(Debug, PartialEq)]
pub enum JsonRpcRequestsFromJsonError {
    MalformedRequest { source: JsonRpcRequestFromJsonError },
    EmptyBatchArray,
    InvalidJsonType,
}

/// What a `JsonRpcRequestsFromJsonError` is.
pub enum JsonRpcRequestsFromJsonErrorView {
    MalformedRequest { source: JsonRpcRequestFromJsonErrorView },
    EmptyBatchArray,
    InvalidJsonType,
}

/// What requests are.
pub open spec fn requests_view(requests: Seq<JsonRpcRequest>) -> Seq<JsonRpcRequestView> {
    requests.map_values(|request: JsonRpcRequest| request@)
}

/// The JSON values that requests are written as.
pub open spec fn requests_to_json(requests: Seq<JsonRpcRequestView>) -> Seq<JsonView> {
    requests.map_values(|request: JsonRpcRequestView| request.to_json())
}

impl JsonRpcRequestsView {
    /// A single request as a JSON object, a batch as a JSON array.
    pub open spec fn to_json(self) -> JsonView {
        match self {
            JsonRpcRequestsView::Single(request) => request.to_json(),
            JsonRpcRequestsView::Batch(requests) => JsonView::Array(requests_to_json(requests)),
        }
    }
}

/// The JSON values that are no request.
pub open spec fn malformed_request() -> spec_fn(JsonView) -> bool {
    |json: JsonView| json_rpc_request::request_from_json(json) is Err
}

/// The requests that the items of a batch are, where each is one; else the index of the first item
/// that is none, and what is wrong with it.
pub open spec fn requests_from_items(items: Seq<JsonView>) -> Result<
    Seq<JsonRpcRequestView>,
    (int, JsonRpcRequestFromJsonErrorView),
> {
    match sequences::first_index(items, malformed_request()) {
        Some(index) => Err((index, json_rpc_request::request_from_json(items[index])->Err_0)),
        None => Ok(
            items.map_values(|json: JsonView| json_rpc_request::request_from_json(json)->Ok_0),
        ),
    }
}

/// The request or the batch that a JSON value is.
pub open spec fn requests_from_json(json: JsonView) -> Result<
    JsonRpcRequestsView,
    JsonRpcRequestsFromJsonErrorView,
> {
    match json {
        JsonView::Object(_) => match json_rpc_request::request_from_json(json) {
            Ok(request) => Ok(JsonRpcRequestsView::Single(request)),
            Err(source) => Err(JsonRpcRequestsFromJsonErrorView::MalformedRequest { source }),
        },
        JsonView::Array(items) => if items.len() == 0 {
            Err(JsonRpcRequestsFromJsonErrorView::EmptyBatchArray)
        } else {
            match requests_from_items(items) {
                Ok(requests) => Ok(JsonRpcRequestsView::Batch(requests)),
                Err((_, source)) => Err(
                    JsonRpcRequestsFromJsonErrorView::MalformedRequest { source },
                ),
            }
        },
        _ => Err(JsonRpcRequestsFromJsonErrorView::InvalidJsonType),
    }
}

/// What reading a request or a batch gave.
pub open spec fn requests_read(read: Result<JsonRpcRequests, JsonRpcRequestsFromJsonError>) -> Result<
    JsonRpcRequestsView,
    JsonRpcRequestsFromJsonErrorView,
> {
    match read {
        Ok(value) => Ok(value@),
        Err(error) => Err(error@),
    }
}

/// The items of a batch read back from the JSON values they are written as are the same requests.
pub proof fn requests_items_round_trip(requests: Seq<JsonRpcRequestView>)
    ensures
        requests_from_items(requests_to_json(requests)) == Ok::<
            Seq<JsonRpcRequestView>,
            (int, JsonRpcRequestFromJsonErrorView),
        >(requests),
{
    let items = requests_to_json(requests);
    assert forall|i: int| 0 <= i < items.len() implies json_rpc_request::request_from_json(
        #[trigger] items[i],
    ) == Ok::<JsonRpcRequestView, JsonRpcRequestFromJsonErrorView>(requests[i]) by {
        json_rpc_request::request_round_trip(requests[i]);
    }
    sequences::first_index_exists(items, malformed_request());
    assert(requests_from_items(items)->Ok_0 =~= requests);
}

/// The items of a batch that are requests are the JSON values that the requests are written as.
pub proof fn requests_are_written_back(items: Seq<JsonView>)
    requires
        requests_from_items(items) is Ok,
    ensures
        requests_to_json(requests_from_items(items)->Ok_0) == items,
{
    sequences::first_index_exists(items, malformed_request());
    let written = requests_to_json(requests_from_items(items)->Ok_0);
    assert forall|i: int| 0 <= i < items.len() implies #[trigger] written[i] == items[i] by {
        assert(!malformed_request()(items[i]));
        json_rpc_request::request_is_written_back(items[i]);
    }
    assert(written =~= items);
}

/// The items of a batch are read one by one: each as it would be alone, and in their order. Where one
/// cannot be read, the first that cannot is told, and what is wrong with it.
pub proof fn requests_are_read_one_by_one(items: Seq<JsonView>, i: int)
    ensures
        requests_from_items(items) is Ok ==> requests_from_items(items)->Ok_0.len() == items.len(),
        requests_from_items(items) is Ok && 0 <= i < items.len()
            ==> json_rpc_request::request_from_json(items[i]) == Ok::<
            JsonRpcRequestView,
            JsonRpcRequestFromJsonErrorView,
        >(requests_from_items(items)->Ok_0[i]),
        requests_from_items(items) matches Err((index, error)) ==> {
            &&& 0 <= index < items.len()
            &&& json_rpc_request::request_from_json(items[index]) == Err::<
                JsonRpcRequestView,
                JsonRpcRequestFromJsonErrorView,
            >(error)
            &&& 0 <= i < index ==> json_rpc_request::request_from_json(items[i]) is Ok
        },
{
    sequences::first_index_exists(items, malformed_request());
    if sequences::first_index(items, malformed_request()) is Some {
        sequences::first_index_is_first(items, malformed_request(), i);
        let n = sequences::first_index(items, malformed_request())->0;
        assert(malformed_request()(items[n]));
    } else if 0 <= i < items.len() {
        assert(!malformed_request()(items[i]));
    }
}

/// What is wrong with a request or a batch is what is told of it: of a batch, what is wrong with the first
/// item that cannot be read.
pub proof fn requests_are_refused_for_a_reason(json: JsonView)
    requires
        requests_from_json(json) is Err,
    ensures
        match requests_from_json(json)->Err_0 {
            JsonRpcRequestsFromJsonErrorView::InvalidJsonType => !(json is Object)
                && !(json is Array),
            JsonRpcRequestsFromJsonErrorView::EmptyBatchArray => json is Array
                && json->Array_0.len() == 0,
            JsonRpcRequestsFromJsonErrorView::MalformedRequest { source } => {
                ||| json is Object && json_rpc_request::request_from_json(json) == Err::<
                    JsonRpcRequestView,
                    JsonRpcRequestFromJsonErrorView,
                >(source)
                ||| json is Array && requests_from_items(json->Array_0) is Err && requests_from_items(
                    json->Array_0,
                )->Err_0.1 == source
            },
        },
{
}

/// A single request, or a batch with something in it, read back from the JSON value it is written as
/// is the same. An empty batch is the one thing that is written and not read back.
pub proof fn requests_round_trip(requests: JsonRpcRequestsView)
    requires
        requests matches JsonRpcRequestsView::Batch(batch) ==> batch.len() > 0,
    ensures
        requests_from_json(requests.to_json()) == Ok::<
            JsonRpcRequestsView,
            JsonRpcRequestsFromJsonErrorView,
        >(requests),
{
    match requests {
        JsonRpcRequestsView::Single(request) => {
            json_rpc_request::request_round_trip(request);
        },
        JsonRpcRequestsView::Batch(batch) => {
            requests_items_round_trip(batch);
        },
    }
}

/// Reads the requests that the items of a batch are; the error has the index of the first item
/// that is none.
pub fn read_request_items(items: Vec<JsonValue>) -> (read: Result<
    Vec<JsonRpcRequest>,
    (usize, JsonRpcRequestFromJsonError),
>)
    ensures
        match read {
            Ok(requests) => requests_from_items(json_value::values_view(items@)) == Ok::<
                Seq<JsonRpcRequestView>,
                (int, JsonRpcRequestFromJsonErrorView),
            >(requests_view(requests@)),
            Err((index, source)) => requests_from_items(json_value::values_view(items@)) == Err::<
                Seq<JsonRpcRequestView>,
                (int, JsonRpcRequestFromJsonErrorView),
            >((index as int, source@)),
        },
{
    let ghost all = json_value::values_view(items@);
    let mut requests: Vec<JsonRpcRequest> = Vec::new();
    for item in rest: items
        invariant
            rest.seq() == items@,
            all == json_value::values_view(items@),
            requests@.len() == rest.index(),
            forall|i: int|
                #![trigger all[i]]
                0 <= i < requests@.len() ==> json_rpc_request::request_from_json(all[i]) == Ok::<
                    JsonRpcRequestView,
                    JsonRpcRequestFromJsonErrorView,
                >(requests@[i]@),
    {
        assert(item@ == all[rest.index() as int]);
        let index: usize = requests.len();
        match JsonRpcRequest::try_from(item) {
            Ok(request) => requests.push(request),
            Err(source) => {
                proof {
                    sequences::first_index_found(all, malformed_request(), index as int);
                }
                return Err((index, source));
            },
        }
    }
    proof {
        sequences::first_index_exists(all, malformed_request());
        assert(requests_view(requests@) =~= requests_from_items(all)->Ok_0);
    }
    Ok(requests)
}

/// Writes each of several requests as a JSON value.
pub fn write_request_items(requests: Vec<JsonRpcRequest>) -> (items: Vec<JsonValue>)
    ensures
        json_value::values_view(items@) == requests_to_json(requests_view(requests@)),
{
    let mut items: Vec<JsonValue> = Vec::new();
    for request in rest: requests
        invariant
            rest.seq() == requests@,
            items@.len() == rest.index(),
            forall|i: int|
                #![trigger items@[i]]
                0 <= i < items@.len() ==> items@[i]@ == requests@[i]@.to_json(),
    {
        assert(request == requests@[rest.index() as int]);
        items.push(JsonValue::from(request));
    }
    assert(json_value::values_view(items@) =~= requests_to_json(requests_view(requests@)));
    items
}

impl JsonRpcRequests {
    /// What the request or the batch is.
    pub open spec fn view(&self) -> JsonRpcRequestsView {
        match *self {
            JsonRpcRequests::Single(request) => JsonRpcRequestsView::Single(request@),
            JsonRpcRequests::Batch(requests) =>
                JsonRpcRequestsView::Batch(requests_view(requests@)),
        }
    }
}

impl Clone for JsonRpcRequests {
    fn clone(&self) -> (copy: JsonRpcRequests)
        ensures
            copy@ == self@,
    {
        match self {
            JsonRpcRequests::Single(request) => JsonRpcRequests::Single(request.clone()),
            JsonRpcRequests::Batch(requests) => {
                let mut copies: Vec<JsonRpcRequest> = Vec::new();
                for i in 0..requests.len()
                    invariant
                        copies@.len() == i,
                        forall|k: int|
                            #![trigger copies@[k]]
                            0 <= k < i ==> copies@[k]@ == requests@[k]@,
                {
                    copies.push(requests[i].clone());
                }
                assert(requests_view(copies@) =~= requests_view(requests@));
                JsonRpcRequests::Batch(copies)
            },
        }
    }
}

impl From<JsonRpcRequests> for JsonValue {
    fn from(json_rpc_requests: JsonRpcRequests) -> (json: JsonValue)
        ensures
            json@ == json_rpc_requests@.to_json(),
    {
        match json_rpc_requests {
            JsonRpcRequests::Single(request) => JsonValue::from(request),
            JsonRpcRequests::Batch(requests) => JsonValue::Array(write_request_items(requests)),
        }
    }
}

impl vstd::std_specs::convert::FromSpecImpl<JsonRpcRequests> for JsonValue {
    open spec fn obeys_from_spec() -> bool {
        false
    }

    open spec fn from_spec(json_rpc_requests: JsonRpcRequests) -> JsonValue {
        arbitrary()
    }
}

impl TryFrom<JsonValue> for JsonRpcRequests {
    type Error = JsonRpcRequestsFromJsonError;

    fn try_from(json: JsonValue) -> (read: Result<JsonRpcRequests, JsonRpcRequestsFromJsonError>)
        ensures
            requests_read(read) == requests_from_json(json@),
    {
        match json {
            JsonValue::Object(map) => match JsonRpcRequest::try_from(JsonValue::Object(map)) {
                Ok(request) => Ok(JsonRpcRequests::Single(request)),
                Err(source) => Err(JsonRpcRequestsFromJsonError::MalformedRequest { source }),
            },
            JsonValue::Array(items) => {
                if items.len() == 0 {
                    return Err(JsonRpcRequestsFromJsonError::EmptyBatchArray);
                }
                match read_request_items(items) {
                    Ok(requests) => Ok(JsonRpcRequests::Batch(requests)),
                    Err((_, source)) => Err(
                        JsonRpcRequestsFromJsonError::MalformedRequest { source },
                    ),
                }
            },
            _ => Err(JsonRpcRequestsFromJsonError::InvalidJsonType),
        }
    }
}

impl vstd::std_specs::convert::TryFromSpecImpl<JsonValue> for JsonRpcRequests {
    open spec fn obeys_try_from_spec() -> bool {
        false
    }

    open spec fn try_from_spec(json: JsonValue) -> Result<JsonRpcRequests, JsonRpcRequestsFromJsonError> {
        arbitrary()
    }
}

impl JsonRpcRequestsFromJsonErrorView {
    /// The error in words.
    pub open spec fn text(self) -> Seq<char> {
        match self {
            JsonRpcRequestsFromJsonErrorView::MalformedRequest { source } => "malformed request: "@
                + source.text(),
            JsonRpcRequestsFromJsonErrorView::EmptyBatchArray => "empty batch array"@,
            JsonRpcRequestsFromJsonErrorView::InvalidJsonType =>
                "expected a request json object or json array of requests"@,
        }
    }
}

impl JsonRpcRequestsFromJsonError {
    /// What the error is.
    pub open spec fn view(&self) -> JsonRpcRequestsFromJsonErrorView {
        match *self {
            JsonRpcRequestsFromJsonError::MalformedRequest { source } => JsonRpcRequestsFromJsonErrorView::MalformedRequest {
                source: source@,
            },
            JsonRpcRequestsFromJsonError::EmptyBatchArray =>
                JsonRpcRequestsFromJsonErrorView::EmptyBatchArray,
            JsonRpcRequestsFromJsonError::InvalidJsonType =>
                JsonRpcRequestsFromJsonErrorView::InvalidJsonType,
        }
    }

    /// Says in words what is wrong.
    pub fn message(&self) -> (message: String)
        ensures
            message@ == self@.text(),
    {
        match self {
            JsonRpcRequestsFromJsonError::MalformedRequest { source } => join(
                "malformed request: ",
                source.message().as_str(),
            ),
            JsonRpcRequestsFromJsonError::EmptyBatchArray => "empty batch array".to_owned(),
            JsonRpcRequestsFromJsonError::InvalidJsonType =>
                "expected a request json object or json array of requests".to_owned(),
        }
    }
}

} // verus!
