//! The messages of JSON-RPC 2.0, and how they are written as JSON values.

use vstd::prelude::*;

pub mod json_rpc_error;
pub mod json_rpc_error_code;
pub mod json_rpc_id;
pub mod json_rpc_message;
pub mod json_rpc_params;
pub mod json_rpc_request;
pub mod json_rpc_requests;
pub mod json_rpc_response;
pub mod json_rpc_responses;

pub use json_rpc_error::{JsonRpcError, JsonRpcErrorFromJsonError};
pub use json_rpc_error_code::{JsonRpcErrorCode, JsonRpcErrorCodeFromJsonError};
pub use json_rpc_id::{JsonRpcId, JsonRpcIdFromJsonError};
pub use json_rpc_message::{JsonRpcMessage, JsonRpcMessageFromJsonError};
pub use json_rpc_params::{JsonRpcParams, JsonRpcParamsFromJsonError};
pub use json_rpc_request::{JsonRpcRequest, JsonRpcRequestFromJsonError};
pub use json_rpc_requests::{JsonRpcRequests, JsonRpcRequestsFromJsonError};
pub use json_rpc_response::{JsonRpcResponse, JsonRpcResponseFromJsonError};
pub use json_rpc_responses::{JsonRpcResponses, JsonRpcResponsesFromJsonError};

verus! {

/// The names of the fields of messages are all different.
pub proof fn field_names_differ()
    ensures
        "code"@ != "message"@,
        "code"@ != "data"@,
        "message"@ != "data"@,
        "jsonrpc"@ != "id"@,
        "jsonrpc"@ != "method"@,
        "jsonrpc"@ != "params"@,
        "jsonrpc"@ != "result"@,
        "jsonrpc"@ != "error"@,
        "id"@ != "method"@,
        "id"@ != "params"@,
        "id"@ != "result"@,
        "id"@ != "error"@,
        "method"@ != "params"@,
        "method"@ != "result"@,
        "method"@ != "error"@,
        "result"@ != "error"@,
{
    reveal_strlit("code");
    reveal_strlit("message");
    reveal_strlit("data");
    reveal_strlit("jsonrpc");
    reveal_strlit("id");
    reveal_strlit("method");
    reveal_strlit("params");
    reveal_strlit("result");
    reveal_strlit("error");
    assert("id"@.len() == 2 && "error"@.len() == 5);
    assert("code"@[0] == 'c' && "data"@[0] == 'd');
    assert("message"@[0] == 'm' && "jsonrpc"@[0] == 'j');
    assert("method"@[0] == 'm' && "params"@[0] == 'p' && "result"@[0] == 'r');
}

} // verus!
