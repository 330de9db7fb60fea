//! What a session does with each message, each finished request and each end of its stream.

use crate::json_types::json_rpc_error::JsonRpcErrorView;
use crate::json_types::json_rpc_id::JsonRpcIdView;
use crate::json_types::json_rpc_params;
use crate::json_types::json_rpc_params::JsonRpcParamsView;
use crate::json_types::json_rpc_request::JsonRpcRequestView;
use crate::json_types::json_rpc_requests;
use crate::json_types::json_rpc_requests::JsonRpcRequestsView;
use crate::json_types::json_rpc_response::JsonRpcResponseView;
use crate::json_types::json_rpc_responses;
use crate::json_types::json_rpc_message::JsonRpcMessageView;
use crate::json_types::json_rpc_responses::JsonRpcResponsesView;
use crate::json_types::{
    JsonRpcId, JsonRpcMessage, JsonRpcParams, JsonRpcRequest, JsonRpcRequests, JsonRpcResponse,
    JsonRpcResponses,
};
use crate::json_value::{JsonValue, JsonView};
use crate::message_io::{io_error_words, ReadMessageError, ReadMessageErrorView};
use crate::service;
use crate::service::{method_call_response, HandleMethodError, HandleMethodErrorView};
use crate::text;
use crate::text::join;
use vstd::prelude::*;

verus! {

/// Why a session ends before its stream does.
#[derive(Debug)]
#[allow(inconsistent_fields)]
pub enum ConnectionError {
    Read { source: ReadMessageError },
    Write { source: std::io::Error },
}

/// What a `ConnectionError` is.
#[allow(inconsistent_fields)]
pub enum ConnectionErrorView {
    Read { source: ReadMessageErrorView },
    Write { source: std::io::Error },
}

/// A request that is to be handled.
#[derive(Debug, PartialEq)]
pub enum SessionTask {
    MethodCall { id: JsonRpcId, method: String, params: Option<JsonRpcParams> },
    Notification { method: String, params: Option<JsonRpcParams> },
}

/// What a `SessionTask` is.
pub enum SessionTaskView {
    MethodCall { id: JsonRpcIdView, method: Seq<char>, params: Option<JsonRpcParamsView> },
    Notification { method: Seq<char>, params: Option<JsonRpcParamsView> },
}

/// The responses to the requests of one message: a single one is sent as it is there, those of a
/// batch are held until all are there.
#[derive(Debug, PartialEq)]
pub enum PendingResponses {
    Single,
    Batch { num_method_calls: usize, responses: Vec<JsonRpcResponse> },
}

/// What `PendingResponses` are.
pub enum PendingResponsesView {
    Single,
    Batch { num_method_calls: nat, responses: Seq<JsonRpcResponseView> },
}

/// What a session waits for.
#[derive(Debug, Clone, Copy, PartialEq, Eq, Structural)]
pub enum SessionWait {
    /// For a message or for a request that is finished, whichever comes first.
    MessageOrRequest,
    /// For a message: no request is being handled.
    Message,
    /// For a request that is finished: no more are taken, or no more messages come.
    Request,
    /// For nothing: no messages come and all requests are finished.
    Complete,
}

/// What a session does with what it read.
pub enum SessionStep {
    Deliver { responses: JsonRpcResponses },
    Handle { tasks: Vec<SessionTask>, pending: PendingResponses },
    Stop { error: ConnectionError },
}

/// What a `SessionStep` is.
pub enum SessionStepView {
    Deliver { responses: JsonRpcResponsesView },
    Handle { tasks: Seq<SessionTaskView>, pending: PendingResponsesView },
    Stop { error: ConnectionErrorView },
}

/// What a session does when a request is finished.
pub enum AfterRequest {
    Proceed,
    Write { message: JsonRpcMessage },
    Close,
}

/// What an `AfterRequest` is.
pub enum AfterRequestView {
    Proceed,
    Write { message: JsonRpcMessageView },
    Close,
}

/// The requests that a session handles at once, and whether more messages may come.
#[derive(Debug)]
pub struct SessionState {
    pub max_concurrent_requests: usize,
    pub active_requests: usize,
    pub stream_open: bool,
}

/// The task that a request is: a method call if it has an id, else a notification.
pub open spec fn task_of(request: JsonRpcRequestView) -> SessionTaskView {
    match request.id {
        Some(id) => SessionTaskView::MethodCall {
            id,
            method: request.method,
            params: request.params,
        },
        None => SessionTaskView::Notification { method: request.method, params: request.params },
    }
}

/// The tasks that requests are, one for each, in their order.
pub open spec fn tasks_of(requests: JsonRpcRequestsView) -> Seq<SessionTaskView> {
    match requests {
        JsonRpcRequestsView::Single(request) => seq![task_of(request)],
        JsonRpcRequestsView::Batch(batch) => batch.map_values(
            |request: JsonRpcRequestView| task_of(request),
        ),
    }
}

/// How many of the requests are method calls.
pub open spec fn method_calls(requests: Seq<JsonRpcRequestView>) -> nat
    decreases requests.len(),
{
    if requests.len() == 0 {
        0
    } else {
        method_calls(requests.drop_last()) + if requests.last().id is Some {
            1nat
        } else {
            0nat
        }
    }
}

/// How many of the tasks are method calls.
pub open spec fn call_tasks(tasks: Seq<SessionTaskView>) -> nat
    decreases tasks.len(),
{
    if tasks.len() == 0 {
        0
    } else {
        call_tasks(tasks.drop_last()) + if tasks.last() is MethodCall {
            1nat
        } else {
            0nat
        }
    }
}

/// What tasks are.
pub open spec fn tasks_view(tasks: Seq<SessionTask>) -> Seq<SessionTaskView> {
    tasks.map_values(|task: SessionTask| task@)
}

/// The responses to requests, before any of them is there.
pub open spec fn pending_for(requests: JsonRpcRequestsView) -> PendingResponsesView {
    match requests {
        JsonRpcRequestsView::Single(_) => PendingResponsesView::Single,
        JsonRpcRequestsView::Batch(batch) => PendingResponsesView::Batch {
            num_method_calls: method_calls(batch),
            responses: Seq::empty(),
        },
    }
}

impl PendingResponsesView {
    /// What is sent once one more response is there.
    pub open spec fn output(self, response: JsonRpcResponseView) -> Option<JsonRpcResponsesView> {
        match self {
            PendingResponsesView::Single => Some(JsonRpcResponsesView::Single(response)),
            PendingResponsesView::Batch { num_method_calls, responses } => if responses.len() + 1
                == num_method_calls {
                Some(JsonRpcResponsesView::Batch(responses.push(response)))
            } else {
                None
            },
        }
    }

    /// What is held once one more response is there.
    pub open spec fn after(self, response: JsonRpcResponseView) -> PendingResponsesView {
        match self {
            PendingResponsesView::Single => self,
            PendingResponsesView::Batch { num_method_calls, responses } =>
                PendingResponsesView::Batch {
                num_method_calls,
                responses: if responses.len() + 1 == num_method_calls {
                    Seq::empty()
                } else {
                    responses.push(response)
                },
            },
        }
    }

    /// What is held once several more responses are there, one after another.
    pub open spec fn after_all(self, responses: Seq<JsonRpcResponseView>) -> PendingResponsesView
        decreases responses.len(),
    {
        if responses.len() == 0 {
            self
        } else {
            self.after_all(responses.drop_last()).after(responses.last())
        }
    }
}

/// What a session does with what it read.
pub open spec fn step_for(read: Result<JsonRpcMessageView, ReadMessageErrorView>) -> SessionStepView {
    match read {
        Ok(JsonRpcMessageView::Response(responses)) => SessionStepView::Deliver { responses },
        Ok(JsonRpcMessageView::Request(requests)) => SessionStepView::Handle {
            tasks: tasks_of(requests),
            pending: pending_for(requests),
        },
        Err(source) => SessionStepView::Stop { error: ConnectionErrorView::Read { source } },
    }
}

/// What was read.
pub open spec fn message_result_view(read: Result<JsonRpcMessage, ReadMessageError>) -> Result<
    JsonRpcMessageView,
    ReadMessageErrorView,
> {
    match read {
        Ok(message) => Ok(message@),
        Err(error) => Err(error@),
    }
}

/// How many requests start with a step.
pub open spec fn started(step: SessionStepView) -> nat {
    match step {
        SessionStepView::Handle { tasks, .. } => tasks.len(),
        _ => 0,
    }
}

/// What a session does when a method call is finished: it sends what is to be sent, or closes the
/// connection where the service wants it dropped.
pub open spec fn after_call(
    pending: PendingResponsesView,
    id: JsonRpcIdView,
    method: Seq<char>,
    outcome: Result<JsonView, HandleMethodErrorView>,
) -> AfterRequestView {
    match service::call_response(id, method, outcome) {
        None => AfterRequestView::Close,
        Some(response) => match pending.output(response) {
            Some(responses) => AfterRequestView::Write {
                message: JsonRpcMessageView::Response(responses),
            },
            None => AfterRequestView::Proceed,
        },
    }
}

/// What is held when a method call is finished.
pub open spec fn pending_after_call(
    pending: PendingResponsesView,
    id: JsonRpcIdView,
    method: Seq<char>,
    outcome: Result<JsonView, HandleMethodErrorView>,
) -> PendingResponsesView {
    match service::call_response(id, method, outcome) {
        None => pending,
        Some(response) => pending.after(response),
    }
}

/// The method calls among the tasks of a batch are as many as the responses that are waited for.
pub proof fn batch_waits_for_its_calls(batch: Seq<JsonRpcRequestView>)
    ensures
        call_tasks(tasks_of(JsonRpcRequestsView::Batch(batch))) == method_calls(batch),
    decreases batch.len(),
{
    let tasks = tasks_of(JsonRpcRequestsView::Batch(batch));
    if batch.len() > 0 {
        batch_waits_for_its_calls(batch.drop_last());
        assert(tasks.drop_last() =~= tasks_of(JsonRpcRequestsView::Batch(batch.drop_last())));
    }
}

/// A batch is answered once, with the responses to all its calls, in the order in which they were
/// there: each response but the last is held, and with the last all of them are sent.
pub proof fn batch_is_answered_once(responses: Seq<JsonRpcResponseView>, n: int)
    requires
        0 <= n < responses.len(),
    ensures
        ({
            let nothing = PendingResponsesView::Batch {
                num_method_calls: responses.len(),
                responses: Seq::empty(),
            };
            let held = nothing.after_all(responses.take(n));
            &&& held == PendingResponsesView::Batch {
                num_method_calls: responses.len(),
                responses: responses.take(n),
            }
            &&& held.output(responses[n]) == if n + 1 == responses.len() {
                Some(JsonRpcResponsesView::Batch(responses))
            } else {
                None
            }
        }),
    decreases n,
{
    let nothing = PendingResponsesView::Batch {
        num_method_calls: responses.len(),
        responses: Seq::empty(),
    };
    if n == 0 {
        assert(responses.take(0) =~= Seq::empty());
    } else {
        batch_is_answered_once(responses, n - 1);
        assert(responses.take(n).drop_last() =~= responses.take(n - 1));
        assert(responses.take(n).last() == responses[n - 1]);
        assert(responses.take(n - 1).push(responses[n - 1]) =~= responses.take(n));
    }
    assert(responses.take(n).push(responses[n]) =~= responses.take(n + 1));
    if n + 1 == responses.len() {
        assert(responses.take(n + 1) =~= responses);
    }
}

/// What is sent as several responses are there, one after another.
pub open spec fn outputs(
    pending: PendingResponsesView,
    responses: Seq<JsonRpcResponseView>,
) -> Seq<JsonRpcResponsesView>
    decreases responses.len(),
{
    if responses.len() == 0 {
        Seq::empty()
    } else {
        let before = outputs(pending, responses.drop_last());
        match pending.after_all(responses.drop_last()).output(responses.last()) {
            Some(output) => before.push(output),
            None => before,
        }
    }
}

proof fn batch_is_held(responses: Seq<JsonRpcResponseView>, n: int)
    requires
        0 <= n < responses.len(),
    ensures
        outputs(
            PendingResponsesView::Batch {
                num_method_calls: responses.len(),
                responses: Seq::empty(),
            },
            responses.take(n),
        ).len() == 0,
    decreases n,
{
    if n > 0 {
        batch_is_held(responses, n - 1);
        batch_is_answered_once(responses, n - 1);
        assert(responses.take(n).drop_last() =~= responses.take(n - 1));
        assert(responses.take(n).last() == responses[n - 1]);
    }
}

/// A message is answered with one message, once its method calls are finished, in whatever order
/// they are: a single call with its response, a batch with the responses to all its calls.
pub proof fn message_is_answered_once(
    requests: JsonRpcRequestsView,
    responses: Seq<JsonRpcResponseView>,
)
    requires
        responses.len() > 0,
        responses.len() == call_tasks(tasks_of(requests)),
    ensures
        outputs(pending_for(requests), responses) == seq![
            match requests {
                JsonRpcRequestsView::Single(_) => JsonRpcResponsesView::Single(responses[0]),
                JsonRpcRequestsView::Batch(_) => JsonRpcResponsesView::Batch(responses),
            },
        ],
{
    let last = responses.len() - 1;
    assert(responses.drop_last() =~= responses.take(last));
    match requests {
        JsonRpcRequestsView::Single(request) => {
            reveal_with_fuel(call_tasks, 2);
            assert(responses.len() == 1);
            assert(outputs(pending_for(requests), responses.drop_last()).len() == 0);
            assert(outputs(pending_for(requests), responses) =~= seq![
                JsonRpcResponsesView::Single(responses[0]),
            ]);
        },
        JsonRpcRequestsView::Batch(batch) => {
            batch_waits_for_its_calls(batch);
            batch_is_answered_once(responses, last);
            batch_is_held(responses, last);
            assert(outputs(pending_for(requests), responses) =~= seq![
                JsonRpcResponsesView::Batch(responses),
            ]);
        },
    }
}

/// A message without method calls is never answered: it has no method call among its tasks.
pub proof fn notifications_are_not_answered(requests: JsonRpcRequestsView)
    requires
        match requests {
            JsonRpcRequestsView::Single(request) => request.id is None,
            JsonRpcRequestsView::Batch(batch) => method_calls(batch) == 0,
        },
    ensures
        forall|i: int|
            #![trigger tasks_of(requests)[i]]
            0 <= i < tasks_of(requests).len() ==> tasks_of(requests)[i] is Notification,
{
    match requests {
        JsonRpcRequestsView::Single(_) => {},
        JsonRpcRequestsView::Batch(batch) => {
            assert forall|i: int|
                #![trigger tasks_of(requests)[i]]
                0 <= i < tasks_of(requests).len() implies tasks_of(requests)[i] is Notification by {
                no_calls_no_ids(batch, i);
            }
        },
    }
}

proof fn no_calls_no_ids(batch: Seq<JsonRpcRequestView>, i: int)
    requires
        method_calls(batch) == 0,
        0 <= i < batch.len(),
    ensures
        batch[i].id is None,
    decreases batch.len(),
{
    if i < batch.len() - 1 {
        no_calls_no_ids(batch.drop_last(), i);
        assert(batch.drop_last()[i] == batch[i]);
    }
}

impl SessionTaskView {
    /// The method that the service is handed.
    pub open spec fn method(self) -> Seq<char> {
        match self {
            SessionTaskView::MethodCall { method, .. } => method,
            SessionTaskView::Notification { method, .. } => method,
        }
    }

    /// The parameters that the service is handed.
    pub open spec fn params(self) -> Option<JsonRpcParamsView> {
        match self {
            SessionTaskView::MethodCall { params, .. } => params,
            SessionTaskView::Notification { params, .. } => params,
        }
    }

    /// The id that the answer is to carry, if there is to be one.
    pub open spec fn id(self) -> Option<JsonRpcIdView> {
        match self {
            SessionTaskView::MethodCall { id, .. } => Some(id),
            SessionTaskView::Notification { .. } => None,
        }
    }
}

/// The requests of a message, one by one.
pub open spec fn each_request(requests: JsonRpcRequestsView) -> Seq<JsonRpcRequestView> {
    match requests {
        JsonRpcRequestsView::Single(request) => seq![request],
        JsonRpcRequestsView::Batch(batch) => batch,
    }
}

/// The requests that want an answer.
pub open spec fn wants_answer() -> spec_fn(JsonRpcRequestView) -> bool {
    |request: JsonRpcRequestView| request.id is Some
}

/// What is handed to the service for a request is the method of the request and its parameters,
/// whether it is a method call or a notification; the id is kept where there is one.
pub proof fn task_carries_its_request(request: JsonRpcRequestView)
    ensures
        task_of(request).method() == request.method,
        task_of(request).params() == request.params,
        task_of(request).id() == request.id,
{
}

/// There is a task for each request of a message, in their order, with the method, the parameters
/// and the id of that request.
pub proof fn tasks_carry_their_requests(requests: JsonRpcRequestsView, i: int)
    requires
        0 <= i < each_request(requests).len(),
    ensures
        tasks_of(requests).len() == each_request(requests).len(),
        tasks_of(requests)[i].method() == each_request(requests)[i].method,
        tasks_of(requests)[i].params() == each_request(requests)[i].params,
        tasks_of(requests)[i].id() == each_request(requests)[i].id,
{
}

/// As many tasks are started as there are requests, and none are where there are none.
pub proof fn each_request_is_started(requests: JsonRpcRequestsView)
    ensures
        tasks_of(requests).len() == each_request(requests).len(),
        started(step_for(Ok(JsonRpcMessageView::Request(requests)))) == each_request(
            requests,
        ).len(),
{
}

/// The method calls of a batch are its requests with an id.
pub proof fn method_calls_have_ids(batch: Seq<JsonRpcRequestView>)
    ensures
        method_calls(batch) == batch.filter(wants_answer()).len(),
    decreases batch.len(),
{
    reveal(Seq::filter);
    if batch.len() > 0 {
        method_calls_have_ids(batch.drop_last());
    }
}

/// What is read decides what is done: responses are delivered just as they were read, requests are
/// handled, each with its task, and an error stops the session with that error and starts nothing.
pub proof fn what_is_read_is_done(read: Result<JsonRpcMessageView, ReadMessageErrorView>)
    ensures
        step_for(read) is Deliver <==> read is Ok && read->Ok_0 is Response,
        step_for(read) is Handle <==> read is Ok && read->Ok_0 is Request,
        step_for(read) is Stop <==> read is Err,
        step_for(read) is Deliver ==> read->Ok_0 == JsonRpcMessageView::Response(
            step_for(read)->responses,
        ),
        step_for(read) is Handle ==> step_for(read)->tasks.len() == each_request(
            read->Ok_0->Request_0,
        ).len(),
        step_for(read) is Handle ==> forall|i: int|
            #![trigger step_for(read)->tasks[i]]
            0 <= i < step_for(read)->tasks.len() ==> {
                let request = each_request(read->Ok_0->Request_0)[i];
                let task = step_for(read)->tasks[i];
                task.method() == request.method && task.params() == request.params && task.id()
                    == request.id
            },
        step_for(read) is Handle ==> (step_for(read)->pending is Single
            <==> read->Ok_0->Request_0 is Single),
        step_for(read) is Handle && read->Ok_0->Request_0 is Batch ==> {
            &&& step_for(read)->pending->num_method_calls == read->Ok_0->Request_0->Batch_0.filter(
                wants_answer(),
            ).len()
            &&& step_for(read)->pending->Batch_responses.len() == 0
        },
        step_for(read) is Stop ==> step_for(read)->error == (ConnectionErrorView::Read {
            source: read->Err_0,
        }),
        !(step_for(read) is Handle) ==> started(step_for(read)) == 0,
{
    if read is Ok && read->Ok_0 is Request && read->Ok_0->Request_0 is Batch {
        method_calls_have_ids(read->Ok_0->Request_0->Batch_0);
    }
}

/// A method call that is finished is answered under its own id: a single one at once, one of a
/// batch with the last of the batch, all together and none left out. Only a wish to drop the
/// connection closes it, and then nothing is held that was not held before.
pub proof fn finished_call_is_answered(
    pending: PendingResponsesView,
    id: JsonRpcIdView,
    method: Seq<char>,
    outcome: Result<JsonView, HandleMethodErrorView>,
)
    ensures
        ({
            let after = after_call(pending, id, method, outcome);
            let held = pending_after_call(pending, id, method, outcome);
            let dropped = outcome == Err::<JsonView, HandleMethodErrorView>(
                HandleMethodErrorView::DropConnection,
            );
            &&& after is Close <==> dropped
            &&& dropped ==> held == pending
            &&& !dropped && pending is Single ==> {
                &&& held == pending
                &&& after matches AfterRequestView::Write {
                    message: JsonRpcMessageView::Response(JsonRpcResponsesView::Single(response)),
                }
                &&& response.id == id
                &&& outcome is Ok ==> response.result == Ok::<JsonView, JsonRpcErrorView>(
                    outcome->Ok_0,
                )
                &&& outcome is Err ==> response.result is Err
            }
            &&& !dropped && pending is Batch && pending->Batch_responses.len() + 1
                == pending->num_method_calls ==> {
                &&& after matches AfterRequestView::Write {
                    message: JsonRpcMessageView::Response(JsonRpcResponsesView::Batch(responses)),
                }
                &&& responses.len() == pending->num_method_calls
                &&& responses.drop_last() == pending->Batch_responses
                &&& responses.last().id == id
                &&& outcome is Ok ==> responses.last().result == Ok::<JsonView, JsonRpcErrorView>(
                    outcome->Ok_0,
                )
                &&& outcome is Err ==> responses.last().result is Err
                &&& held is Batch && held->Batch_responses.len() == 0
            }
            &&& !dropped && pending is Batch && pending->Batch_responses.len() + 1
                != pending->num_method_calls ==> {
                &&& after is Proceed
                &&& held is Batch
                &&& held->num_method_calls == pending->num_method_calls
                &&& held->Batch_responses.len() == pending->Batch_responses.len() + 1
                &&& held->Batch_responses.drop_last() == pending->Batch_responses
                &&& held->Batch_responses.last().id == id
                &&& outcome is Ok ==> held->Batch_responses.last().result == Ok::<
                    JsonView,
                    JsonRpcErrorView,
                >(outcome->Ok_0)
            }
        }),
{
    if pending is Batch && service::call_response(id, method, outcome) is Some {
        let responses = pending->Batch_responses;
        let response = service::call_response(id, method, outcome)->0;
        assert(responses.push(response).drop_last() =~= responses);
    }
}

/// A batch without method calls is answered with nothing, whatever comes.
pub proof fn batch_without_calls_is_not_answered(
    batch: Seq<JsonRpcRequestView>,
    response: JsonRpcResponseView,
)
    requires
        forall|i: int| #![trigger batch[i]] 0 <= i < batch.len() ==> batch[i].id is None,
    ensures
        pending_for(JsonRpcRequestsView::Batch(batch)).output(response) is None,
    decreases batch.len(),
{
    if batch.len() > 0 {
        let front = batch.drop_last();
        assert forall|i: int| #![trigger front[i]] 0 <= i < front.len() implies front[i].id is None by {
            assert(front[i] == batch[i]);
        }
        batch_without_calls_is_not_answered(front, response);
        assert(batch[batch.len() - 1].id is None);
    }
}

impl SessionTask {
    /// What the task is.
    pub open spec fn view(&self) -> SessionTaskView {
        match *self {
            SessionTask::MethodCall { id, method, params } => SessionTaskView::MethodCall {
                id: id@,
                method: method@,
                params: json_rpc_params::params_option_view(params),
            },
            SessionTask::Notification { method, params } => SessionTaskView::Notification {
                method: method@,
                params: json_rpc_params::params_option_view(params),
            },
        }
    }

    /// Makes the task that a request is.
    pub fn from_request(request: JsonRpcRequest) -> (task: SessionTask)
        ensures
            task@ == task_of(request@),
            match task {
                SessionTask::MethodCall { id, method, params } => request.id == Some(id) && method
                    == request.method && params == request.params,
                SessionTask::Notification { method, params } => request.id is None && method
                    == request.method && params == request.params,
            },
    {
        let JsonRpcRequest { id, method, params } = request;
        match id {
            Some(id) => SessionTask::MethodCall { id, method, params },
            None => SessionTask::Notification { method, params },
        }
    }
}

/// Makes the tasks that requests are, and starts to wait for the responses to them.
pub fn plan_requests(requests: JsonRpcRequests) -> (plan: (Vec<SessionTask>, PendingResponses))
    ensures
        tasks_view(plan.0@) == tasks_of(requests@),
        plan.1@ == pending_for(requests@),
        plan.0@.len() == each_request(requests@).len(),
        forall|i: int|
            #![trigger plan.0@[i]]
            0 <= i < plan.0@.len() ==> {
                &&& plan.0@[i]@.method() == each_request(requests@)[i].method
                &&& plan.0@[i]@.params() == each_request(requests@)[i].params
                &&& plan.0@[i]@.id() == each_request(requests@)[i].id
            },
{
    match requests {
        JsonRpcRequests::Single(request) => {
            let mut tasks: Vec<SessionTask> = Vec::new();
            tasks.push(SessionTask::from_request(request));
            assert(tasks_view(tasks@) =~= tasks_of(requests@));
            (tasks, PendingResponses::Single)
        },
        JsonRpcRequests::Batch(batch) => {
            let ghost all = json_rpc_requests::requests_view(batch@);
            let len: usize = batch.len();
            let mut num_method_calls: usize = 0;
            let mut tasks: Vec<SessionTask> = Vec::with_capacity(len);
            for request in rest: batch
                invariant
                    rest.seq() == batch@,
                    len == batch@.len(),
                    all == json_rpc_requests::requests_view(batch@),
                    tasks@.len() == rest.index(),
                    num_method_calls == method_calls(all.take(rest.index() as int)),
                    num_method_calls <= tasks@.len(),
                    forall|i: int|
                        #![trigger tasks@[i]]
                        0 <= i < tasks@.len() ==> tasks@[i]@ == task_of(all[i]),
            {
                let ghost n = rest.index() as int;
                assert(request == batch@[n]);
                assert(all[n] == request@);
                assert(all.take(n + 1).drop_last() =~= all.take(n));
                match request.id {
                    Some(_) => {
                        num_method_calls = num_method_calls + 1;
                    },
                    None => {},
                }
                tasks.push(SessionTask::from_request(request));
            }
            assert(all.take(all.len() as int) =~= all);
            assert(tasks_view(tasks@) =~= tasks_of(requests@));
            let responses: Vec<JsonRpcResponse> = Vec::new();
            assert(json_rpc_responses::responses_view(responses@) =~= Seq::empty());
            (tasks, PendingResponses::Batch { num_method_calls, responses })
        },
    }
}

impl PendingResponses {
    /// What the pending responses are.
    pub open spec fn view(&self) -> PendingResponsesView {
        match *self {
            PendingResponses::Single => PendingResponsesView::Single,
            PendingResponses::Batch { num_method_calls, responses } =>
                PendingResponsesView::Batch {
                num_method_calls: num_method_calls as nat,
                responses: json_rpc_responses::responses_view(responses@),
            },
        }
    }

    /// Takes one more response; gives what is to be sent with it, if anything is.
    pub fn record(&mut self, response: JsonRpcResponse) -> (output: Option<JsonRpcResponses>)
        ensures
            final(self)@ == old(self)@.after(response@),
            match output {
                Some(responses) => old(self)@.output(response@) == Some(responses@),
                None => old(self)@.output(response@) is None,
            },
    {
        match self {
            PendingResponses::Single => Some(JsonRpcResponses::Single(response)),
            PendingResponses::Batch { num_method_calls, responses } => {
                let ghost before = responses@;
                responses.push(response);
                assert(json_rpc_responses::responses_view(responses@)
                    =~= json_rpc_responses::responses_view(before).push(response@));
                if responses.len() == *num_method_calls {
                    let mut all: Vec<JsonRpcResponse> = Vec::new();
                    assert(json_rpc_responses::responses_view(all@) =~= Seq::empty());
                    std::mem::swap(&mut all, responses);
                    Some(JsonRpcResponses::Batch(all))
                } else {
                    None
                }
            },
        }
    }
}

impl SessionStep {
    /// What the step is.
    pub open spec fn view(&self) -> SessionStepView {
        match *self {
            SessionStep::Deliver { responses } => SessionStepView::Deliver {
                responses: responses@,
            },
            SessionStep::Handle { tasks, pending } => SessionStepView::Handle {
                tasks: tasks_view(tasks@),
                pending: pending@,
            },
            SessionStep::Stop { error } => SessionStepView::Stop { error: error@ },
        }
    }
}

impl AfterRequest {
    /// What the session does.
    pub open spec fn view(&self) -> AfterRequestView {
        match *self {
            AfterRequest::Proceed => AfterRequestView::Proceed,
            AfterRequest::Write { message } => AfterRequestView::Write { message: message@ },
            AfterRequest::Close => AfterRequestView::Close,
        }
    }
}

impl SessionState {
    /// What the session waits for: it takes messages only while fewer requests than allowed are
    /// being handled, and it is complete when no more messages come and all requests are finished.
    pub open spec fn waits_for(self) -> SessionWait {
        if self.active_requests < self.max_concurrent_requests {
            if self.stream_open {
                if self.active_requests > 0 {
                    SessionWait::MessageOrRequest
                } else {
                    SessionWait::Message
                }
            } else if self.active_requests > 0 {
                SessionWait::Request
            } else {
                SessionWait::Complete
            }
        } else {
            SessionWait::Request
        }
    }

    /// Starts a session that handles so many requests at once.
    pub fn new(max_concurrent_requests: usize) -> (state: SessionState)
        requires
            max_concurrent_requests >= 1,
        ensures
            state == (SessionState {
                max_concurrent_requests,
                active_requests: 0,
                stream_open: true,
            }),
    {
        SessionState { max_concurrent_requests, active_requests: 0, stream_open: true }
    }

    /// Tells what to wait for.
    pub fn wait(&self) -> (wait: SessionWait)
        ensures
            wait == self.waits_for(),
    {
        if self.active_requests < self.max_concurrent_requests {
            if self.stream_open {
                if self.active_requests > 0 {
                    SessionWait::MessageOrRequest
                } else {
                    SessionWait::Message
                }
            } else if self.active_requests > 0 {
                SessionWait::Request
            } else {
                SessionWait::Complete
            }
        } else {
            SessionWait::Request
        }
    }

    /// Takes what was read. The requests that it starts are being handled from then on, those of
    /// a batch all at once.
    pub fn on_message(&mut self, read: Result<JsonRpcMessage, ReadMessageError>) -> (step:
        SessionStep)
        requires
            old(self).active_requests + started(step_for(message_result_view(read))) <= usize::MAX,
        ensures
            step@ == step_for(message_result_view(read)),
            *final(self) == (SessionState {
                active_requests: (old(self).active_requests + started(step@)) as usize,
                ..*old(self)
            }),
    {
        match read {
            Ok(JsonRpcMessage::Response(responses)) => SessionStep::Deliver { responses },
            Ok(JsonRpcMessage::Request(requests)) => {
                let (tasks, pending) = plan_requests(requests);
                self.active_requests = self.active_requests + tasks.len();
                SessionStep::Handle { tasks, pending }
            },
            Err(source) => SessionStep::Stop { error: ConnectionError::Read { source } },
        }
    }

    /// Takes note that no more messages come.
    pub fn on_stream_end(&mut self)
        ensures
            *final(self) == (SessionState { stream_open: false, ..*old(self) }),
    {
        self.stream_open = false;
    }

    /// Takes what came of a method call.
    pub fn on_method_call(
        &mut self,
        pending: &mut PendingResponses,
        id: JsonRpcId,
        method: &str,
        outcome: Result<JsonValue, HandleMethodError>,
    ) -> (after: AfterRequest)
        requires
            old(self).active_requests > 0,
        ensures
            after@ == after_call(old(pending)@, id@, method@, service::outcome_view(outcome)),
            final(pending)@ == pending_after_call(
                old(pending)@,
                id@,
                method@,
                service::outcome_view(outcome),
            ),
            *final(self) == (SessionState {
                active_requests: (old(self).active_requests - 1) as usize,
                ..*old(self)
            }),
    {
        self.active_requests = self.active_requests - 1;
        match method_call_response(id, method, outcome) {
            None => AfterRequest::Close,
            Some(response) => match pending.record(response) {
                Some(responses) => AfterRequest::Write {
                    message: JsonRpcMessage::Response(responses),
                },
                None => AfterRequest::Proceed,
            },
        }
    }

    /// Takes note that a notification was handled. Nothing is sent for it.
    pub fn on_notification(&mut self) -> (after: AfterRequest)
        requires
            old(self).active_requests > 0,
        ensures
            after@ == AfterRequestView::Proceed,
            *final(self) == (SessionState {
                active_requests: (old(self).active_requests - 1) as usize,
                ..*old(self)
            }),
    {
        self.active_requests = self.active_requests - 1;
        AfterRequest::Proceed
    }
}

/// Takes what came of writing a message: an error ends the session.
pub fn on_written(written: Result<(), std::io::Error>) -> (result: Result<(), ConnectionError>)
    ensures
        match written {
            Ok(()) => result == Ok::<(), ConnectionError>(()),
            Err(source) => result == Err::<(), ConnectionError>(ConnectionError::Write { source }),
        },
{
    match written {
        Ok(()) => Ok(()),
        Err(source) => Err(ConnectionError::Write { source }),
    }
}

/// A session waits for a request exactly while one is being handled, and for a message exactly while
/// the stream is open and fewer requests than allowed are being handled.
pub proof fn session_waits_for_what_can_come(state: SessionState)
    requires
        state.max_concurrent_requests >= 1,
    ensures
        state.waits_for() == SessionWait::Request || state.waits_for()
            == SessionWait::MessageOrRequest <==> state.active_requests > 0,
        state.waits_for() == SessionWait::Message || state.waits_for()
            == SessionWait::MessageOrRequest <==> state.stream_open && state.active_requests
            < state.max_concurrent_requests,
        state.waits_for() == SessionWait::Complete <==> !state.stream_open && state.active_requests
            == 0,
{
}

/// Single requests never make a session handle more requests than allowed; a batch makes it exceed
/// that number by less than the batch has requests.
pub proof fn requests_are_limited(state: SessionState, requests: JsonRpcRequestsView)
    requires
        state.waits_for() == SessionWait::Message || state.waits_for()
            == SessionWait::MessageOrRequest,
    ensures
        requests is Single ==> state.active_requests + tasks_of(requests).len()
            <= state.max_concurrent_requests,
        state.active_requests + tasks_of(requests).len() < state.max_concurrent_requests
            + if tasks_of(requests).len() > 0 { tasks_of(requests).len() } else { 1 },
{
}

impl ConnectionErrorView {
    /// The error in words; `io_words` are the words of an error of input or output.
    pub open spec fn text(self, io_words: Seq<char>) -> Seq<char> {
        match self {
            ConnectionErrorView::Read { source } => "error reading from underlying stream: "@
                + source.text(io_words),
            ConnectionErrorView::Write { .. } => "error writing to underlying stream: "@ + io_words,
        }
    }
}

/// The words of what went wrong stand at the end of what is said.
pub proof fn connection_error_tells_its_cause(error: ConnectionErrorView, io_words: Seq<char>)
    ensures
        error matches ConnectionErrorView::Read { source } ==> text::ends_with(
            error.text(io_words),
            source.text(io_words),
        ),
        error is Write ==> text::ends_with(error.text(io_words), io_words),
{
    match error {
        ConnectionErrorView::Read { source } => {
            text::what_is_put_behind_ends_it(
                "error reading from underlying stream: "@,
                source.text(io_words),
            );
        },
        ConnectionErrorView::Write { .. } => {
            text::what_is_put_behind_ends_it("error writing to underlying stream: "@, io_words);
        },
    }
}

impl ConnectionError {
    /// What the error is.
    pub open spec fn view(&self) -> ConnectionErrorView {
        match *self {
            ConnectionError::Read { source } => ConnectionErrorView::Read { source: source@ },
            ConnectionError::Write { source } => ConnectionErrorView::Write { source },
        }
    }

    /// Says in words what went wrong; `io_words` are the words of an error of input or output.
    pub fn message_with(&self, io_words: &str) -> (words: String)
        ensures
            words@ == self@.text(io_words@),
    {
        match self {
            ConnectionError::Read { source } => join(
                "error reading from underlying stream: ",
                source.message_with(io_words).as_str(),
            ),
            ConnectionError::Write { .. } => join("error writing to underlying stream: ", io_words),
        }
    }

    /// Says in words what went wrong. The words of an error of input or output are those of the
    /// machine: which they are is not said.
    pub fn message(&self) -> (words: String)
        ensures
            exists|io_words: Seq<char>| words@ == #[trigger] self@.text(io_words),
    {
        match self {
            ConnectionError::Read { source: ReadMessageError::Io { source } } => self.message_with(
                io_error_words(source).as_str(),
            ),
            ConnectionError::Write { source } => self.message_with(io_error_words(source).as_str()),
            _ => self.message_with(""),
        }
    }
}

} // verus!
