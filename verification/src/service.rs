//! What a service makes of a method call, and the response that follows from it.

use crate::error_codes;
use crate::json_types::json_rpc_error;
use crate::json_types::json_rpc_error::JsonRpcErrorView;
use crate::json_types::json_rpc_id::JsonRpcIdView;
use crate::json_types::json_rpc_response;
use crate::json_types::json_rpc_response::JsonRpcResponseView;
use crate::json_types::{JsonRpcError, JsonRpcErrorCode, JsonRpcId, JsonRpcParams, JsonRpcResponse};
use crate::json_value::{JsonValue, JsonView};
use crate::text::{join, join3};
use vstd::prelude::*;

verus! {

/// Why a service has no result for a method call.
#[derive(Debug, PartialEq)]
pub enum HandleMethodError {
    DropConnection,
    MethodNotFound,
    InvalidParams { message: String, data: Option<JsonValue> },
    InternalError { message: String, data: Option<JsonValue> },
    ApplicationError(JsonRpcError),
}

/// What a `HandleMethodError` is.
pub enum HandleMethodErrorView {
    DropConnection,
    MethodNotFound,
    InvalidParams { message: Seq<char>, data: Option<JsonView> },
    InternalError { message: Seq<char>, data: Option<JsonView> },
    ApplicationError(JsonRpcErrorView),
}

/// The wish to drop the connection in place of an answer.
#[derive(Debug, Clone, Copy, PartialEq, Eq, Structural)]
pub struct DropConnection;

impl HandleMethodErrorView {
    /// The error that the caller of `method` is told, unless the connection is dropped.
    pub open spec fn to_json_rpc_error(self, method: Seq<char>) -> Option<JsonRpcErrorView> {
        match self {
            HandleMethodErrorView::DropConnection => None,
            HandleMethodErrorView::MethodNotFound => Some(
                JsonRpcErrorView {
                    code: error_codes::METHOD_NOT_FOUND,
                    message: "method '"@ + method + "' not found"@,
                    data: None,
                },
            ),
            HandleMethodErrorView::InvalidParams { message, data } => Some(
                JsonRpcErrorView {
                    code: error_codes::INVALID_PARAMS,
                    message: "invalid params: "@ + message,
                    data,
                },
            ),
            HandleMethodErrorView::InternalError { message, data } => Some(
                JsonRpcErrorView { code: error_codes::INTERNAL_ERROR, message, data },
            ),
            HandleMethodErrorView::ApplicationError(error) => Some(error),
        }
    }
}

/// What an optional error is.
pub open spec fn error_option_view(error: Option<JsonRpcError>) -> Option<JsonRpcErrorView> {
    match error {
        Some(error) => Some(error@),
        None => None,
    }
}

/// What came of a method call.
pub open spec fn outcome_view(outcome: Result<JsonValue, HandleMethodError>) -> Result<
    JsonView,
    HandleMethodErrorView,
> {
    match outcome {
        Ok(value) => Ok(value@),
        Err(error) => Err(error@),
    }
}

/// The response to the call of `method` with the given id; none where the connection is dropped.
pub open spec fn call_response(
    id: JsonRpcIdView,
    method: Seq<char>,
    outcome: Result<JsonView, HandleMethodErrorView>,
) -> Option<JsonRpcResponseView> {
    match outcome {
        Ok(value) => Some(JsonRpcResponseView { id, result: Ok(value) }),
        Err(error) => match error.to_json_rpc_error(method) {
            Some(error) => Some(JsonRpcResponseView { id, result: Err(error) }),
            None => None,
        },
    }
}

/// A method call is answered under its own id, unless the connection is dropped.
pub proof fn call_is_answered(
    id: JsonRpcIdView,
    method: Seq<char>,
    outcome: Result<JsonView, HandleMethodErrorView>,
)
    ensures
        call_response(id, method, outcome) is None <==> outcome == Err::<
            JsonView,
            HandleMethodErrorView,
        >(HandleMethodErrorView::DropConnection),
        call_response(id, method, outcome) matches Some(response) ==> response.id == id,
{
}

/// What came of a method call is told as it is: a value as the result, an error of the application
/// as the error. Other errors are told apart by their codes; they keep their data, and the words
/// that they have stand at the end of what is told.
pub proof fn outcome_is_told(
    id: JsonRpcIdView,
    method: Seq<char>,
    outcome: Result<JsonView, HandleMethodErrorView>,
    response: JsonRpcResponseView,
)
    requires
        call_response(id, method, outcome) == Some(response),
    ensures
        response.id == id,
        response.result is Ok <==> outcome is Ok,
        outcome is Ok ==> response.result->Ok_0 == outcome->Ok_0,
        outcome is Err ==> match outcome->Err_0 {
            HandleMethodErrorView::DropConnection => false,
            HandleMethodErrorView::MethodNotFound => {
                let error = response.result->Err_0;
                &&& error.code == -32601
                &&& error.data is None
                &&& exists|i: int|
                    0 <= i <= error.message.len() - method.len() && #[trigger]
                    error.message.subrange(i, i + method.len()) == method
            },
            HandleMethodErrorView::InvalidParams { message, data } => {
                let error = response.result->Err_0;
                &&& error.code == -32602
                &&& error.data == data
                &&& error.message.len() >= message.len()
                &&& error.message.skip(error.message.len() - message.len()) == message
            },
            HandleMethodErrorView::InternalError { message, data } => {
                let error = response.result->Err_0;
                &&& error.code == -32603
                &&& error.data == data
                &&& error.message == message
            },
            HandleMethodErrorView::ApplicationError(error) => response.result->Err_0 == error,
        },
{
    if outcome is Err {
        match outcome->Err_0 {
            HandleMethodErrorView::MethodNotFound => {
                let told = response.result->Err_0.message;
                let i = "method '"@.len() as int;
                assert(told.subrange(i, i + method.len()) =~= method);
            },
            HandleMethodErrorView::InvalidParams { message, .. } => {
                let told = response.result->Err_0.message;
                assert(told.skip(told.len() - message.len()) =~= message);
            },
            _ => {},
        }
    }
}

impl HandleMethodError {
    /// What the error is.
    pub open spec fn view(&self) -> HandleMethodErrorView {
        match *self {
            HandleMethodError::DropConnection => HandleMethodErrorView::DropConnection,
            HandleMethodError::MethodNotFound => HandleMethodErrorView::MethodNotFound,
            HandleMethodError::InvalidParams { message, data } =>
                HandleMethodErrorView::InvalidParams {
                message: message@,
                data: json_rpc_error::json_option_view(data),
            },
            HandleMethodError::InternalError { message, data } =>
                HandleMethodErrorView::InternalError {
                message: message@,
                data: json_rpc_error::json_option_view(data),
            },
            HandleMethodError::ApplicationError(error) => HandleMethodErrorView::ApplicationError(
                error@,
            ),
        }
    }

    /// Makes the error that the caller of `method` is told, unless the connection is dropped.
    pub fn into_json_rpc_error(self, method: &str) -> (error: Option<JsonRpcError>)
        ensures
            error_option_view(error) == self@.to_json_rpc_error(method@),
    {
        match self {
            HandleMethodError::DropConnection => None,
            HandleMethodError::MethodNotFound => Some(
                JsonRpcError {
                    code: JsonRpcErrorCode::new_unchecked(error_codes::METHOD_NOT_FOUND),
                    message: join3("method '", method, "' not found"),
                    data: None,
                },
            ),
            HandleMethodError::InvalidParams { message, data } => Some(
                JsonRpcError {
                    code: JsonRpcErrorCode::new_unchecked(error_codes::INVALID_PARAMS),
                    message: join("invalid params: ", message.as_str()),
                    data,
                },
            ),
            HandleMethodError::InternalError { message, data } => Some(
                JsonRpcError {
                    code: JsonRpcErrorCode::new_unchecked(error_codes::INTERNAL_ERROR),
                    message,
                    data,
                },
            ),
            HandleMethodError::ApplicationError(error) => Some(error),
        }
    }
}

impl From<JsonRpcError> for HandleMethodError {
    fn from(json_rpc_error: JsonRpcError) -> (error: HandleMethodError)
        ensures
            error == HandleMethodError::ApplicationError(json_rpc_error),
    {
        HandleMethodError::ApplicationError(json_rpc_error)
    }
}

impl vstd::std_specs::convert::FromSpecImpl<JsonRpcError> for HandleMethodError {
    open spec fn obeys_from_spec() -> bool {
        true
    }

    open spec fn from_spec(json_rpc_error: JsonRpcError) -> HandleMethodError {
        HandleMethodError::ApplicationError(json_rpc_error)
    }
}

impl From<DropConnection> for HandleMethodError {
    fn from(drop_connection: DropConnection) -> (error: HandleMethodError)
        ensures
            error == HandleMethodError::DropConnection,
    {
        HandleMethodError::DropConnection
    }
}

impl vstd::std_specs::convert::FromSpecImpl<DropConnection> for HandleMethodError {
    open spec fn obeys_from_spec() -> bool {
        true
    }

    open spec fn from_spec(drop_connection: DropConnection) -> HandleMethodError {
        HandleMethodError::DropConnection
    }
}

/// Makes the response to the call of `method` with the given id out of what came of the call.
pub fn method_call_response(
    id: JsonRpcId,
    method: &str,
    outcome: Result<JsonValue, HandleMethodError>,
) -> (response: Option<JsonRpcResponse>)
    ensures
        json_rpc_response::response_option_view(response) == call_response(
            id@,
            method@,
            outcome_view(outcome),
        ),
{
    match outcome {
        Ok(value) => Some(JsonRpcResponse { id, result: Ok(value) }),
        Err(error) => match error.into_json_rpc_error(method) {
            Some(error) => Some(JsonRpcResponse { id, result: Err(error) }),
            None => None,
        },
    }
}

/// A service without methods.
#[derive(Debug, Clone, Copy, PartialEq, Eq, Structural)]
pub struct NullService;

impl NullService {
    /// Finds no method.
    pub fn handle_method(&self, method: &str, params: Option<JsonRpcParams>) -> (outcome: Result<
        JsonValue,
        HandleMethodError,
    >)
        ensures
            outcome == Err::<JsonValue, HandleMethodError>(HandleMethodError::MethodNotFound),
    {
        Err(HandleMethodError::MethodNotFound)
    }
}

} // verus!
