//! A server that answers line by line: each line is a request or a batch, and what is wrong with
//! a request is answered in place of the request.

use crate::error_codes;
use crate::json_codec;
use crate::json_codec::{read_json_bytes, write_json, JsonRead};
use crate::json_types::json_rpc_error;
use crate::json_types::json_rpc_error::JsonRpcErrorView;
use crate::json_types::json_rpc_id;
use crate::json_types::json_rpc_id::JsonRpcIdView;
use crate::json_types::json_rpc_request;
use crate::json_types::json_rpc_response;
use crate::json_types::json_rpc_response::JsonRpcResponseView;
use crate::json_types::json_rpc_responses;
use crate::json_types::json_rpc_responses::{write_response_items, JsonRpcResponsesView};
use crate::json_types::{JsonRpcError, JsonRpcErrorCode, JsonRpcId, JsonRpcRequest, JsonRpcResponse};
use crate::json_value;
use crate::json_value::{JsonValue, JsonView};
use crate::session::state;
use crate::session::state::{SessionTask, SessionTaskView};
use crate::text::{join, join3};
use vstd::prelude::*;

verus! {

/// Why a service has no result for a method call.
#[derive(Debug, PartialEq)]
pub enum HandleMethodError {
    MethodNotFound,
    InvalidParams { message: String, data: Option<JsonValue> },
    ApplicationError(JsonRpcError),
}

/// What a `HandleMethodError` is.
pub enum HandleMethodErrorView {
    MethodNotFound,
    InvalidParams { message: Seq<char>, data: Option<JsonView> },
    ApplicationError(JsonRpcErrorView),
}

/// What a line is answered with.
#[derive(Debug, PartialEq)]
pub enum JsonRpcMultiResponse {
    Single(JsonRpcResponse),
    Batch(Vec<JsonRpcResponse>),
}

/// What is to be done with a request: to answer it at once, or to handle it.
#[derive(Debug, PartialEq)]
pub enum RequestPlan {
    Reply(JsonRpcResponse),
    Handle(SessionTask),
}

/// What a `RequestPlan` is.
pub enum RequestPlanView {
    Reply(JsonRpcResponseView),
    Handle(SessionTaskView),
}

/// What is to be done with a line.
#[derive(Debug, PartialEq)]
pub enum LinePlan {
    Reply(JsonRpcMultiResponse),
    Single(RequestPlan),
    Batch(Vec<RequestPlan>),
}

/// What a `LinePlan` is.
pub enum LinePlanView {
    Reply(JsonRpcResponsesView),
    Single(RequestPlanView),
    Batch(Seq<RequestPlanView>),
}

/// The response that says what is wrong with a request.
pub open spec fn refusal(id: JsonRpcIdView, code: i16, message: Seq<char>) -> JsonRpcResponseView {
    JsonRpcResponseView { id, result: Err(JsonRpcErrorView { code, message, data: None }) }
}

/// What is to be done with a request. What is wrong with it is told under its id, as far as that
/// could be read.
pub open spec fn request_plan(json: JsonView) -> RequestPlanView {
    match json_rpc_request::request_from_json(json) {
        Ok(request) => RequestPlanView::Handle(state::task_of(request)),
        Err(error) => RequestPlanView::Reply(
            refusal(
                match error.id() {
                    Some(id) => id,
                    None => JsonRpcIdView::Null,
                },
                error_codes::INVALID_REQUEST,
                error.short_text(),
            ),
        ),
    }
}

/// What is to be done with a line that is a JSON value: an object is a request, an array a batch.
pub open spec fn json_plan(json: JsonView) -> LinePlanView {
    match json {
        JsonView::Object(_) => LinePlanView::Single(request_plan(json)),
        JsonView::Array(items) => LinePlanView::Batch(
            items.map_values(|item: JsonView| request_plan(item)),
        ),
        _ => LinePlanView::Reply(
            JsonRpcResponsesView::Single(
                refusal(
                    JsonRpcIdView::Null,
                    error_codes::INVALID_REQUEST,
                    "request object must be an object or array"@,
                ),
            ),
        ),
    }
}

/// What is to be done with a line, going by what was read out of it.
pub open spec fn read_plan(read: JsonRead) -> LinePlanView {
    match read {
        JsonRead::Value(json) => json_plan(json),
        JsonRead::Error(message) => LinePlanView::Reply(
            JsonRpcResponsesView::Single(
                refusal(
                    JsonRpcIdView::Null,
                    error_codes::PARSE_ERROR,
                    "invalid json: "@ + message,
                ),
            ),
        ),
    }
}

/// The responses among what requests came to.
pub open spec fn responses_among(responses: Seq<Option<JsonRpcResponseView>>) -> Seq<
    JsonRpcResponseView,
>
    decreases responses.len(),
{
    if responses.len() == 0 {
        Seq::empty()
    } else {
        let front = responses_among(responses.drop_last());
        match responses.last() {
            Some(response) => front.push(response),
            None => front,
        }
    }
}

/// What a batch is answered with: all its responses together, and nothing where there are none.
pub open spec fn batch_answer(responses: Seq<Option<JsonRpcResponseView>>) -> Option<
    JsonRpcResponsesView,
> {
    if responses_among(responses).len() == 0 {
        None
    } else {
        Some(JsonRpcResponsesView::Batch(responses_among(responses)))
    }
}

/// What optional responses are.
pub open spec fn response_options_view(responses: Seq<Option<JsonRpcResponse>>) -> Seq<
    Option<JsonRpcResponseView>,
> {
    responses.map_values(
        |response: Option<JsonRpcResponse>| json_rpc_response::response_option_view(response),
    )
}

/// What an optional answer is.
pub open spec fn answer_view(answer: Option<JsonRpcMultiResponse>) -> Option<JsonRpcResponsesView> {
    match answer {
        Some(answer) => Some(answer@),
        None => None,
    }
}

/// What plans are.
pub open spec fn plans_view(plans: Seq<RequestPlan>) -> Seq<RequestPlanView> {
    plans.map_values(|plan: RequestPlan| plan@)
}

/// A request that cannot be read is answered, whatever it is, as an invalid request; one that can
/// be read is handled.
pub proof fn malformed_requests_are_answered(json: JsonView)
    ensures
        request_plan(json) is Handle <==> json_rpc_request::request_from_json(json) is Ok,
        request_plan(json) matches RequestPlanView::Reply(response) ==> response.result matches Err(
            error,
        ) ==> error.code == error_codes::INVALID_REQUEST,
        request_plan(json) matches RequestPlanView::Reply(response) ==> response.result is Err,
{
}

/// An empty batch, and a batch of notifications, get no answer.
pub proof fn nothing_to_answer(responses: Seq<Option<JsonRpcResponseView>>)
    requires
        forall|i: int| #![trigger responses[i]] 0 <= i < responses.len() ==> responses[i] is None,
    ensures
        batch_answer(responses) is None,
    decreases responses.len(),
{
    if responses.len() > 0 {
        let front = responses.drop_last();
        assert forall|i: int| #![trigger front[i]] 0 <= i < front.len() implies front[i] is None by {
            assert(front[i] == responses[i]);
        }
        nothing_to_answer(front);
        assert(responses[responses.len() - 1] is None);
    }
}

/// Every response to a batch is in its answer.
pub proof fn every_response_is_in_the_answer(responses: Seq<Option<JsonRpcResponseView>>, i: int)
    requires
        0 <= i < responses.len(),
        responses[i] is Some,
    ensures
        batch_answer(responses) matches Some(JsonRpcResponsesView::Batch(batch))
            && batch.contains(responses[i]->0),
    decreases responses.len(),
{
    let last = responses.len() - 1;
    let front = responses_among(responses.drop_last());
    if i < last {
        every_response_is_in_the_answer(responses.drop_last(), i);
        let k = choose|k: int| 0 <= k < front.len() && front[k] == responses[i]->0;
        assert(responses_among(responses)[k] == responses[i]->0);
    } else {
        assert(responses_among(responses)[front.len() as int] == responses[i]->0);
    }
}

/// What a request comes to that is answered.
pub open spec fn is_answered() -> spec_fn(Option<JsonRpcResponseView>) -> bool {
    |response: Option<JsonRpcResponseView>| response is Some
}

/// The responses that an answer holds.
pub open spec fn held_in(answer: Option<JsonRpcResponsesView>) -> Seq<JsonRpcResponseView> {
    match answer {
        None => Seq::empty(),
        Some(JsonRpcResponsesView::Single(response)) => seq![response],
        Some(JsonRpcResponsesView::Batch(batch)) => batch,
    }
}

proof fn responses_are_filtered(responses: Seq<Option<JsonRpcResponseView>>)
    ensures
        responses_among(responses).len() == responses.filter(is_answered()).len(),
        forall|k: int|
            #![trigger responses_among(responses)[k]]
            0 <= k < responses_among(responses).len() ==> responses.filter(is_answered())[k] == Some(
                responses_among(responses)[k],
            ),
    decreases responses.len(),
{
    reveal(Seq::filter);
    if responses.len() > 0 {
        let front = responses.drop_last();
        responses_are_filtered(front);
        assert forall|k: int|
            #![trigger responses_among(responses)[k]]
            0 <= k < responses_among(responses).len() implies responses.filter(is_answered())[k]
            == Some(responses_among(responses)[k]) by {
            if k < responses_among(front).len() {
                assert(responses_among(responses)[k] == responses_among(front)[k]);
            }
        }
    }
}

/// A batch is answered with each of its responses once, in the order in which they were finished,
/// and with nothing else: the answer is what was finished without the notifications.
pub proof fn answer_is_what_was_finished(responses: Seq<Option<JsonRpcResponseView>>)
    ensures
        batch_answer(responses) is Some <==> responses.filter(is_answered()).len() > 0,
        batch_answer(responses) is Some ==> batch_answer(responses)->0 is Batch,
        held_in(batch_answer(responses)).len() == responses.filter(is_answered()).len(),
        forall|k: int|
            #![trigger held_in(batch_answer(responses))[k]]
            0 <= k < held_in(batch_answer(responses)).len() ==> responses.filter(is_answered())[k]
                == Some(held_in(batch_answer(responses))[k]),
{
    responses_are_filtered(responses);
    assert forall|k: int|
        #![trigger held_in(batch_answer(responses))[k]]
        0 <= k < held_in(batch_answer(responses)).len() implies responses.filter(is_answered())[k]
        == Some(held_in(batch_answer(responses))[k]) by {
        assert(held_in(batch_answer(responses))[k] == responses_among(responses)[k]);
    }
}

/// What is finished later is answered behind what is finished before.
pub proof fn answers_come_one_behind_another(
    first: Seq<Option<JsonRpcResponseView>>,
    second: Seq<Option<JsonRpcResponseView>>,
)
    ensures
        responses_among(first + second) == responses_among(first) + responses_among(second),
    decreases second.len(),
{
    if second.len() == 0 {
        assert(first + second =~= first);
        assert(responses_among(first) + responses_among(second) =~= responses_among(first));
    } else {
        assert((first + second).drop_last() =~= first + second.drop_last());
        answers_come_one_behind_another(first, second.drop_last());
        assert(responses_among(first + second) =~= responses_among(first) + responses_among(
            second,
        ));
    }
}

/// A request that can be read is handled with its own method, parameters and id.
pub proof fn request_is_handled_as_it_is(json: JsonView)
    requires
        json_rpc_request::request_from_json(json) is Ok,
    ensures
        ({
            let request = json_rpc_request::request_from_json(json)->Ok_0;
            &&& request_plan(json) is Handle
            &&& request_plan(json)->Handle_0.method() == request.method
            &&& request_plan(json)->Handle_0.params() == request.params
            &&& request_plan(json)->Handle_0.id() == request.id
        }),
{
    state::task_carries_its_request(json_rpc_request::request_from_json(json)->Ok_0);
}

/// A request that cannot be read is answered under its id where that could be read, and else under
/// null.
pub proof fn refusal_carries_the_id(json: JsonView)
    requires
        json_rpc_request::request_from_json(json) is Err,
    ensures
        request_plan(json) is Reply,
        request_plan(json)->Reply_0.result is Err,
        request_plan(json)->Reply_0.result->Err_0.code == -32600,
        request_plan(json)->Reply_0.result->Err_0.data is None,
        request_plan(json)->Reply_0.id == if json is Object && json->Object_0.contains_key("id"@)
            && json_rpc_id::id_from_json(json->Object_0["id"@]) is Ok {
            json_rpc_id::id_from_json(json->Object_0["id"@])->Ok_0
        } else {
            JsonRpcIdView::Null
        },
{
}

/// A line with an array is a batch with one plan for each of its items, in their order, each the
/// same as for the item alone; a line with an object is that request; and every other line is
/// answered at once, under null.
pub proof fn line_is_handled_item_by_item(read: JsonRead)
    ensures
        read_plan(read) is Batch <==> read is Value && read->Value_0 is Array,
        read_plan(read) is Single <==> read is Value && read->Value_0 is Object,
        read_plan(read) is Single ==> read_plan(read)->Single_0 == request_plan(read->Value_0),
        read_plan(read) is Batch ==> read_plan(read)->Batch_0.len()
            == read->Value_0->Array_0.len(),
        read_plan(read) is Batch ==> forall|i: int|
            #![trigger read_plan(read)->Batch_0[i]]
            0 <= i < read_plan(read)->Batch_0.len() ==> read_plan(read)->Batch_0[i] == request_plan(
                read->Value_0->Array_0[i],
            ),
        read_plan(read) is Reply ==> {
            &&& read_plan(read)->Reply_0 matches JsonRpcResponsesView::Single(response)
            &&& response.id == JsonRpcIdView::Null
            &&& response.result is Err
            &&& response.result->Err_0.code == if read is Error { -32700i16 } else { -32600i16 }
        },
        read is Error ==> {
            let message = read_plan(read)->Reply_0->Single_0.result->Err_0.message;
            &&& message.len() >= read->Error_0.len()
            &&& message.skip(message.len() - read->Error_0.len()) == read->Error_0
        },
{
    if read is Error {
        let message = read_plan(read)->Reply_0->Single_0.result->Err_0.message;
        assert(message.skip(message.len() - read->Error_0.len()) =~= read->Error_0);
    }
}

/// An error is told by its code; it keeps its data, the words that it has stand at the end of what
/// is told, and an error of the application is told as it is.
pub proof fn error_is_told(error: HandleMethodErrorView, method: Seq<char>)
    ensures
        match error {
            HandleMethodErrorView::MethodNotFound => {
                let told = error.to_json_rpc_error(method);
                &&& told.code == -32601
                &&& told.data is None
                &&& exists|i: int|
                    0 <= i <= told.message.len() - method.len() && #[trigger] told.message.subrange(
                        i,
                        i + method.len(),
                    ) == method
            },
            HandleMethodErrorView::InvalidParams { message, data } => {
                let told = error.to_json_rpc_error(method);
                &&& told.code == -32602
                &&& told.data == data
                &&& told.message.len() >= message.len()
                &&& told.message.skip(told.message.len() - message.len()) == message
            },
            HandleMethodErrorView::ApplicationError(inner) => error.to_json_rpc_error(method)
                == inner,
        },
{
    let told = error.to_json_rpc_error(method).message;
    match error {
        HandleMethodErrorView::MethodNotFound => {
            let i = "method '"@.len() as int;
            assert(told.subrange(i, i + method.len()) =~= method);
        },
        HandleMethodErrorView::InvalidParams { message, .. } => {
            assert(told.skip(told.len() - message.len()) =~= message);
        },
        _ => {},
    }
}

impl HandleMethodErrorView {
    /// The error that the caller of `method` is told.
    pub open spec fn to_json_rpc_error(self, method: Seq<char>) -> JsonRpcErrorView {
        match self {
            HandleMethodErrorView::MethodNotFound => JsonRpcErrorView {
                code: error_codes::METHOD_NOT_FOUND,
                message: "method '"@ + method + "' not found"@,
                data: None,
            },
            HandleMethodErrorView::InvalidParams { message, data } => JsonRpcErrorView {
                code: error_codes::INVALID_PARAMS,
                message: "invalid params: "@ + message,
                data,
            },
            HandleMethodErrorView::ApplicationError(error) => error,
        }
    }
}

impl HandleMethodError {
    /// What the error is.
    pub open spec fn view(&self) -> HandleMethodErrorView {
        match *self {
            HandleMethodError::MethodNotFound => HandleMethodErrorView::MethodNotFound,
            HandleMethodError::InvalidParams { message, data } =>
                HandleMethodErrorView::InvalidParams {
                message: message@,
                data: json_rpc_error::json_option_view(data),
            },
            HandleMethodError::ApplicationError(error) => HandleMethodErrorView::ApplicationError(
                error@,
            ),
        }
    }

    /// Makes the error that the caller of `method` is told.
    pub fn into_json_rpc_error(self, method: &str) -> (error: JsonRpcError)
        ensures
            error@ == self@.to_json_rpc_error(method@),
    {
        match self {
            HandleMethodError::MethodNotFound => JsonRpcError {
                code: JsonRpcErrorCode::new_unchecked(error_codes::METHOD_NOT_FOUND),
                message: join3("method '", method, "' not found"),
                data: None,
            },
            HandleMethodError::InvalidParams { message, data } => JsonRpcError {
                code: JsonRpcErrorCode::new_unchecked(error_codes::INVALID_PARAMS),
                message: join("invalid params: ", message.as_str()),
                data,
            },
            HandleMethodError::ApplicationError(error) => error,
        }
    }
}

impl JsonRpcMultiResponse {
    /// What the answer is.
    pub open spec fn view(&self) -> JsonRpcResponsesView {
        match *self {
            JsonRpcMultiResponse::Single(response) => JsonRpcResponsesView::Single(response@),
            JsonRpcMultiResponse::Batch(responses) => JsonRpcResponsesView::Batch(
                json_rpc_responses::responses_view(responses@),
            ),
        }
    }

    /// Writes the answer as a JSON value.
    pub fn into_json(self) -> (json: JsonValue)
        ensures
            json@ == self@.to_json(),
    {
        match self {
            JsonRpcMultiResponse::Single(response) => response.into_json(),
            JsonRpcMultiResponse::Batch(responses) => JsonValue::Array(
                write_response_items(responses),
            ),
        }
    }

    /// Writes the answer as bytes, as compact JSON.
    pub fn into_bytes(self) -> (bytes: Vec<u8>)
        ensures
            bytes@ == vstd::utf8::encode_utf8(json_codec::json_text(self@.to_json())),
    {
        write_json(self.into_json())
    }
}

impl RequestPlan {
    /// What is to be done.
    pub open spec fn view(&self) -> RequestPlanView {
        match *self {
            RequestPlan::Reply(response) => RequestPlanView::Reply(response@),
            RequestPlan::Handle(task) => RequestPlanView::Handle(task@),
        }
    }
}

impl LinePlan {
    /// What is to be done.
    pub open spec fn view(&self) -> LinePlanView {
        match *self {
            LinePlan::Reply(answer) => LinePlanView::Reply(answer@),
            LinePlan::Single(plan) => LinePlanView::Single(plan@),
            LinePlan::Batch(plans) => LinePlanView::Batch(plans_view(plans@)),
        }
    }
}

/// Makes the response that says what is wrong with a request.
fn refuse(id: JsonRpcId, code: i16, message: String) -> (response: JsonRpcResponse)
    ensures
        response@ == refusal(id@, code, message@),
{
    JsonRpcResponse {
        id,
        result: Err(
            JsonRpcError { code: JsonRpcErrorCode::new_unchecked(code), message, data: None },
        ),
    }
}

/// Finds out what is to be done with a request.
pub fn handle_request(request_json: JsonValue) -> (plan: RequestPlan)
    ensures
        plan@ == request_plan(request_json@),
{
    match JsonRpcRequest::from_json(request_json) {
        Ok(request) => RequestPlan::Handle(SessionTask::from_request(request)),
        Err((id_opt, message)) => {
            let id = match id_opt {
                Some(id) => id,
                None => JsonRpcId::Null,
            };
            RequestPlan::Reply(refuse(id, error_codes::INVALID_REQUEST, message))
        },
    }
}

/// Finds out what is to be done with a line that is a JSON value.
pub fn handle_request_json(json: JsonValue) -> (plan: LinePlan)
    ensures
        plan@ == json_plan(json@),
{
    match json {
        JsonValue::Object(map) => LinePlan::Single(handle_request(JsonValue::Object(map))),
        JsonValue::Array(requests) => {
            let mut plans: Vec<RequestPlan> = Vec::new();
            for request in rest: requests
                invariant
                    rest.seq() == requests@,
                    plans@.len() == rest.index(),
                    forall|i: int|
                        #![trigger plans@[i]]
                        0 <= i < plans@.len() ==> plans@[i]@ == request_plan(requests@[i]@),
            {
                assert(request == requests@[rest.index() as int]);
                plans.push(handle_request(request));
            }
            assert(plans_view(plans@) =~= json_value::values_view(requests@).map_values(
                |item: JsonView| request_plan(item),
            ));
            LinePlan::Batch(plans)
        },
        _ => LinePlan::Reply(
            JsonRpcMultiResponse::Single(
                refuse(
                    JsonRpcId::Null,
                    error_codes::INVALID_REQUEST,
                    "request object must be an object or array".to_owned(),
                ),
            ),
        ),
    }
}

/// Finds out what is to be done with a line.
pub fn handle_request_line(line_bytes: &[u8]) -> (plan: LinePlan)
    ensures
        plan@ == read_plan(json_codec::json_read_bytes(line_bytes@)),
{
    match read_json_bytes(line_bytes) {
        Ok(json) => handle_request_json(json),
        Err(error) => LinePlan::Reply(
            JsonRpcMultiResponse::Single(
                refuse(
                    JsonRpcId::Null,
                    error_codes::PARSE_ERROR,
                    join("invalid json: ", error.message.as_str()),
                ),
            ),
        ),
    }
}

/// Makes the response to the call of `method` with the given id out of what came of the call.
pub fn method_call_response(
    id: JsonRpcId,
    method: &str,
    outcome: Result<JsonValue, HandleMethodError>,
) -> (response: JsonRpcResponse)
    ensures
        response@ == (JsonRpcResponseView {
            id: id@,
            result: match outcome {
                Ok(value) => Ok(value@),
                Err(error) => Err(error@.to_json_rpc_error(method@)),
            },
        }),
{
    match outcome {
        Ok(value) => JsonRpcResponse { id, result: Ok(value) },
        Err(error) => JsonRpcResponse { id, result: Err(error.into_json_rpc_error(method)) },
    }
}

/// Makes what a single request is answered with out of what it came to.
pub fn single_response(response: Option<JsonRpcResponse>) -> (answer: Option<JsonRpcMultiResponse>)
    ensures
        answer_view(answer) == match response {
            Some(response) => Some(JsonRpcResponsesView::Single(response@)),
            None => None,
        },
{
    match response {
        Some(response) => Some(JsonRpcMultiResponse::Single(response)),
        None => None,
    }
}

/// Makes what a batch is answered with out of what its requests came to, in the order in which
/// they were finished.
pub fn batch_response(responses: Vec<Option<JsonRpcResponse>>) -> (answer: Option<
    JsonRpcMultiResponse,
>)
    ensures
        answer_view(answer) == batch_answer(response_options_view(responses@)),
{
    let ghost all = response_options_view(responses@);
    let mut batch: Vec<JsonRpcResponse> = Vec::new();
    assert(json_rpc_responses::responses_view(batch@) =~= Seq::empty());
    for response in rest: responses
        invariant
            rest.seq() == responses@,
            all == response_options_view(responses@),
            json_rpc_responses::responses_view(batch@) == responses_among(
                all.take(rest.index() as int),
            ),
    {
        let ghost n = rest.index() as int;
        assert(response == responses@[n]);
        assert(all.take(n + 1).drop_last() =~= all.take(n));
        assert(all.take(n + 1).last() == all[n]);
        match response {
            Some(response) => {
                let ghost before = batch@;
                batch.push(response);
                assert(json_rpc_responses::responses_view(batch@)
                    =~= json_rpc_responses::responses_view(before).push(response@));
            },
            None => {},
        }
    }
    assert(all.take(all.len() as int) =~= all);
    if batch.len() == 0 {
        None
    } else {
        Some(JsonRpcMultiResponse::Batch(batch))
    }
}

} // verus!
