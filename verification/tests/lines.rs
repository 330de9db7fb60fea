use electrs_json_rpc::error_codes;
use electrs_json_rpc::json_codec::read_json;
use electrs_json_rpc::json_types::{JsonRpcError, JsonRpcErrorCode, JsonRpcId, JsonRpcResponse};
use electrs_json_rpc::json_value::JsonValue;
use electrs_json_rpc::new_rpc::{
    batch_response, handle_request, handle_request_json, handle_request_line,
    method_call_response, single_response, HandleMethodError, JsonRpcMultiResponse, LinePlan,
    RequestPlan,
};
use electrs_json_rpc::session::SessionTask;

fn refusal(id: JsonRpcId, code: i16, message: &str) -> JsonRpcResponse {
    JsonRpcResponse {
        id,
        result: Err(JsonRpcError {
            code: JsonRpcErrorCode::new_unchecked(code),
            message: message.to_owned(),
            data: None,
        }),
    }
}

fn success(id: i64) -> JsonRpcResponse {
    JsonRpcResponse { id: JsonRpcId::Number(id), result: Ok(JsonValue::Null) }
}

#[test]
fn bad_lines_are_answered() {
    assert_eq!(
        handle_request_line(b"{"),
        LinePlan::Reply(JsonRpcMultiResponse::Single(refusal(
            JsonRpcId::Null,
            error_codes::PARSE_ERROR,
            "invalid json: EOF while parsing an object at line 1 column 1",
        )))
    );
    assert_eq!(
        handle_request_line(b"7"),
        LinePlan::Reply(JsonRpcMultiResponse::Single(refusal(
            JsonRpcId::Null,
            error_codes::INVALID_REQUEST,
            "request object must be an object or array",
        )))
    );
}

#[test]
fn requests_are_planned() {
    let call = "{\"jsonrpc\":\"2.0\",\"id\":1,\"method\":\"m\"}";
    let planned = RequestPlan::Handle(SessionTask::MethodCall {
        id: JsonRpcId::Number(1),
        method: "m".to_owned(),
        params: None,
    });
    assert_eq!(handle_request(read_json(call).unwrap()), planned);
    let note = RequestPlan::Handle(SessionTask::Notification {
        method: "n".to_owned(),
        params: None,
    });
    let line = format!("[{},7,{{\"jsonrpc\":\"2.0\",\"method\":\"n\"}},{{\"id\":5}}]", call);
    let refused = RequestPlan::Reply(refusal(
        JsonRpcId::Null,
        error_codes::INVALID_REQUEST,
        "request must be an object",
    ));
    let versionless = RequestPlan::Reply(refusal(
        JsonRpcId::Number(5),
        error_codes::INVALID_REQUEST,
        "jsonrpc version not specified",
    ));
    assert_eq!(
        handle_request_line(line.as_bytes()),
        LinePlan::Batch(vec![planned, refused, note, versionless])
    );
    match handle_request_json(read_json(call).unwrap()) {
        LinePlan::Single(_) => (),
        other => panic!("{:?}", other),
    }
}

#[test]
fn batches_are_answered_together() {
    assert_eq!(batch_response(Vec::new()), None);
    assert_eq!(batch_response(vec![None, None]), None);
    let answer = batch_response(vec![None, Some(success(2)), None, Some(success(1))]).unwrap();
    assert_eq!(answer, JsonRpcMultiResponse::Batch(vec![success(2), success(1)]));
    let text = "[{\"id\":2,\"jsonrpc\":\"2.0\",\"result\":null},\
                {\"id\":1,\"jsonrpc\":\"2.0\",\"result\":null}]";
    assert_eq!(answer.into_bytes(), text.as_bytes().to_vec());
    assert_eq!(single_response(None), None);
    let single = single_response(Some(success(3))).unwrap();
    assert_eq!(
        single.into_json(),
        read_json("{\"id\":3,\"jsonrpc\":\"2.0\",\"result\":null}").unwrap()
    );
}

#[test]
fn outcomes_are_told() {
    let tell = |outcome: Result<JsonValue, HandleMethodError>| {
        method_call_response(JsonRpcId::Number(1), "m", outcome).result
    };
    assert_eq!(tell(Ok(JsonValue::Null)), Ok(JsonValue::Null));
    let not_found = tell(Err(HandleMethodError::MethodNotFound)).unwrap_err();
    assert_eq!(not_found.code.code(), error_codes::METHOD_NOT_FOUND);
    assert_eq!(not_found.message, "method 'm' not found");
    let invalid = tell(Err(HandleMethodError::InvalidParams {
        message: "x".to_owned(),
        data: None,
    }))
    .unwrap_err();
    assert_eq!(invalid.code.code(), error_codes::INVALID_PARAMS);
    assert_eq!(invalid.message, "invalid params: x");
    let own = refusal(JsonRpcId::Null, 5, "own").result.unwrap_err();
    assert_eq!(tell(Err(HandleMethodError::ApplicationError(own.clone()))), Err(own));
}
