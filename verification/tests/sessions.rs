use electrs_json_rpc::client::{
    after_call, after_notification, after_wait, after_write, method_call_message,
    notification_message, params_to_json, positional_params, ClientCallMethodError,
    ClientSendNotificationError, ClientSendRequestError, JsonRpcClientBatchRequestBuilder,
};
use electrs_json_rpc::error_codes;
use electrs_json_rpc::json_codec::{read_json, JsonTextError};
use electrs_json_rpc::json_types::{
    JsonRpcError, JsonRpcErrorCode, JsonRpcId, JsonRpcMessage, JsonRpcParams, JsonRpcRequest,
    JsonRpcRequests, JsonRpcResponse, JsonRpcResponses,
};
use electrs_json_rpc::json_value::JsonValue;
use electrs_json_rpc::message_io::{decode_line, encode_message, read_outcome};
use electrs_json_rpc::service::{
    method_call_response, DropConnection, HandleMethodError, NullService,
};
use electrs_json_rpc::session::id_order::sort_by_id;
use electrs_json_rpc::session::state::{on_written, plan_requests};
use electrs_json_rpc::session::{
    AfterRequest, ConnectionError, Delivery, PendingResponses, ResponseMap, SessionState,
    SessionStep, SessionTask, SessionWait,
};

fn response(id: JsonRpcId, value: i64) -> JsonRpcResponse {
    JsonRpcResponse { id, result: Ok(JsonValue::from_i64(value)) }
}

fn numbered(id: i64) -> JsonRpcResponse {
    response(JsonRpcId::Number(id), id)
}

fn request(method: &str, id: Option<i64>) -> JsonRpcRequest {
    JsonRpcRequest { method: method.to_owned(), params: None, id: id.map(JsonRpcId::Number) }
}

fn io_error() -> std::io::Error {
    std::io::Error::new(std::io::ErrorKind::Other, "broken pipe")
}

#[test]
fn responses_are_sorted_by_id() {
    let text = JsonRpcId::String("x".to_owned());
    let sorted = sort_by_id(vec![
        numbered(5),
        response(JsonRpcId::Number(2), 20),
        response(text.clone(), 1),
        numbered(-1),
        response(JsonRpcId::Number(2), 21),
        response(JsonRpcId::Null, 2),
    ]);
    assert_eq!(
        sorted,
        vec![
            response(text, 1),
            response(JsonRpcId::Null, 2),
            numbered(-1),
            response(JsonRpcId::Number(2), 20),
            response(JsonRpcId::Number(2), 21),
            numbered(5),
        ]
    );
    assert_eq!(sort_by_id(Vec::new()), Vec::new());
}

#[test]
fn a_response_goes_to_its_call_once() {
    let mut map: ResponseMap<&str, &str> = ResponseMap::new();
    assert_eq!(map.insert_single("first"), 0);
    assert_eq!(map.insert_single("second"), 1);
    match map.handle_incoming_response(JsonRpcResponses::Single(numbered(1))) {
        Delivery::Single { sender, result } => {
            assert_eq!(sender, "second");
            assert_eq!(result, Ok(JsonValue::from_i64(1)));
        },
        _ => panic!("not delivered"),
    }
    match map.handle_incoming_response(JsonRpcResponses::Single(numbered(1))) {
        Delivery::Nowhere => (),
        _ => panic!("delivered twice"),
    }
    let unknown = response(JsonRpcId::String("0".to_owned()), 0);
    match map.handle_incoming_response(JsonRpcResponses::Single(unknown)) {
        Delivery::Nowhere => (),
        _ => panic!("delivered under a text"),
    }
}

#[test]
fn a_batch_is_delivered_in_the_order_of_its_calls() {
    let mut map: ResponseMap<&str, &str> = ResponseMap::new();
    map.insert_single("single");
    assert_eq!(map.insert_batch(3, "batch"), 1);
    assert_eq!(map.insert_single("later"), 4);
    let batch = vec![numbered(3), numbered(1), numbered(2)];
    match map.handle_incoming_response(JsonRpcResponses::Batch(batch.clone())) {
        Delivery::Batch { sender, results } => {
            assert_eq!(sender, "batch");
            assert_eq!(
                results,
                vec![
                    Ok(JsonValue::from_i64(1)),
                    Ok(JsonValue::from_i64(2)),
                    Ok(JsonValue::from_i64(3)),
                ]
            );
        },
        _ => panic!("not delivered"),
    }
    for again in vec![batch, Vec::new(), vec![numbered(4), response(JsonRpcId::Null, 0)]] {
        match map.handle_incoming_response(JsonRpcResponses::Batch(again)) {
            Delivery::Nowhere => (),
            _ => panic!("delivered"),
        }
    }
}

#[test]
fn a_batch_may_come_in_any_order() {
    for batch in vec![
        vec![numbered(0), numbered(9), numbered(4)],
        vec![numbered(4), numbered(0), numbered(9)],
        vec![numbered(9), numbered(4), numbered(0)],
    ] {
        let mut map: ResponseMap<&str, &str> = ResponseMap::new();
        map.insert_batch(3, "batch");
        match map.handle_incoming_response(JsonRpcResponses::Batch(batch)) {
            Delivery::Batch { sender, results } => {
                assert_eq!(sender, "batch");
                assert_eq!(
                    results,
                    vec![
                        Ok(JsonValue::from_i64(0)),
                        Ok(JsonValue::from_i64(4)),
                        Ok(JsonValue::from_i64(9)),
                    ]
                );
            },
            _ => panic!("not delivered"),
        }
    }
    let text = || response(JsonRpcId::String("a".to_owned()), 1);
    let null = || response(JsonRpcId::Null, 2);
    for batch in vec![vec![numbered(0), text(), null()], vec![null(), numbered(0), text()]] {
        let mut map: ResponseMap<&str, &str> = ResponseMap::new();
        map.insert_batch(1, "batch");
        match map.handle_incoming_response(JsonRpcResponses::Batch(batch)) {
            Delivery::Nowhere => (),
            _ => panic!("delivered"),
        }
    }
}

#[test]
fn a_session_takes_as_many_requests_as_allowed() {
    let mut state = SessionState::new(2);
    assert_eq!(state.wait(), SessionWait::Message);
    for id in 0..2 {
        let message = JsonRpcMessage::Request(JsonRpcRequests::Single(request("m", Some(id))));
        match state.on_message(Ok(message)) {
            SessionStep::Handle { tasks, pending } => {
                assert_eq!(tasks.len(), 1);
                assert_eq!(pending, PendingResponses::Single);
            },
            _ => panic!("not handled"),
        }
    }
    assert_eq!(state.wait(), SessionWait::Request);
    state.on_notification();
    assert_eq!(state.wait(), SessionWait::MessageOrRequest);
    state.on_stream_end();
    assert_eq!(state.wait(), SessionWait::Request);
    state.on_notification();
    assert_eq!(state.wait(), SessionWait::Complete);
}

#[test]
fn a_session_delivers_responses_and_stops_on_errors() {
    let mut state = SessionState::new(1);
    let responses = JsonRpcResponses::Single(numbered(1));
    match state.on_message(Ok(JsonRpcMessage::Response(responses.clone()))) {
        SessionStep::Deliver { responses: delivered } => assert_eq!(delivered, responses),
        _ => panic!("not delivered"),
    }
    match state.on_message(Err(decode_line("{}").unwrap_err())) {
        SessionStep::Stop { error } => assert_eq!(
            error.message(),
            "error reading from underlying stream: error parsing json-rpc message: \
             malformed request/response object"
        ),
        _ => panic!("went on"),
    }
    assert!(on_written(Ok(())).is_ok());
    match on_written(Err(io_error())) {
        Err(ConnectionError::Write { source }) => assert_eq!(source.to_string(), "broken pipe"),
        _ => panic!("not an error"),
    }
    assert_eq!(
        on_written(Err(io_error())).unwrap_err().message(),
        "error writing to underlying stream: broken pipe"
    );
    assert_eq!(
        on_written(Err(io_error())).unwrap_err().message_with("words"),
        "error writing to underlying stream: words"
    );
    match state.on_message(Err(read_outcome(Err(io_error()), "").unwrap_err())) {
        SessionStep::Stop { error } => {
            let words = "error reading from underlying stream: io error reading stream: ";
            assert_eq!(error.message(), format!("{}broken pipe", words));
            assert_eq!(error.message_with("words"), format!("{}words", words));
        },
        _ => panic!("went on"),
    }
}

#[test]
fn a_batch_is_answered_with_its_last_call() {
    let mut state = SessionState::new(1);
    let batch = JsonRpcRequests::Batch(vec![
        request("a", Some(1)),
        request("note", None),
        request("b", Some(2)),
    ]);
    let (tasks, mut pending) = match state.on_message(Ok(JsonRpcMessage::Request(batch))) {
        SessionStep::Handle { tasks, pending } => (tasks, pending),
        _ => panic!("not handled"),
    };
    assert_eq!(tasks.len(), 3);
    assert_eq!(
        tasks[1],
        SessionTask::Notification { method: "note".to_owned(), params: None }
    );
    assert_eq!(state.wait(), SessionWait::Request);
    match state.on_notification() {
        AfterRequest::Proceed => (),
        _ => panic!("answered a notification"),
    }
    let second = state.on_method_call(
        &mut pending,
        JsonRpcId::Number(2),
        "b",
        Ok(JsonValue::from_i64(2)),
    );
    match second {
        AfterRequest::Proceed => (),
        _ => panic!("answered too early"),
    }
    let first = state.on_method_call(
        &mut pending,
        JsonRpcId::Number(1),
        "a",
        Err(HandleMethodError::MethodNotFound),
    );
    let not_found = JsonRpcResponse {
        id: JsonRpcId::Number(1),
        result: Err(JsonRpcError {
            code: JsonRpcErrorCode::new_unchecked(error_codes::METHOD_NOT_FOUND),
            message: "method 'a' not found".to_owned(),
            data: None,
        }),
    };
    match first {
        AfterRequest::Write { message } => assert_eq!(
            message,
            JsonRpcMessage::Response(JsonRpcResponses::Batch(vec![numbered(2), not_found]))
        ),
        _ => panic!("not answered"),
    }
    assert_eq!(state.wait(), SessionWait::Message);
}

#[test]
fn notifications_have_nothing_pending() {
    let batch = JsonRpcRequests::Batch(vec![request("a", None), request("b", None)]);
    let (tasks, pending) = plan_requests(batch);
    assert_eq!(tasks.len(), 2);
    assert_eq!(pending, PendingResponses::Batch { num_method_calls: 0, responses: Vec::new() });
}

#[test]
fn a_service_can_drop_the_connection() {
    let mut state = SessionState::new(1);
    let message = JsonRpcMessage::Request(JsonRpcRequests::Single(request("m", Some(1))));
    let mut pending = match state.on_message(Ok(message)) {
        SessionStep::Handle { pending, .. } => pending,
        _ => panic!("not handled"),
    };
    let error = HandleMethodError::from(DropConnection);
    match state.on_method_call(&mut pending, JsonRpcId::Number(1), "m", Err(error)) {
        AfterRequest::Close => (),
        _ => panic!("answered"),
    }
}

#[test]
fn service_errors_are_told() {
    let told = |error: HandleMethodError| {
        method_call_response(JsonRpcId::Null, "m", Err(error)).unwrap().result.unwrap_err()
    };
    let invalid = told(HandleMethodError::InvalidParams {
        message: "missing parameters".to_owned(),
        data: Some(JsonValue::Null),
    });
    assert_eq!(invalid.code.code(), error_codes::INVALID_PARAMS);
    assert_eq!(invalid.message, "invalid params: missing parameters");
    assert_eq!(invalid.data, Some(JsonValue::Null));
    let internal = told(HandleMethodError::InternalError {
        message: "oops".to_owned(),
        data: None,
    });
    assert_eq!(internal.code.code(), error_codes::INTERNAL_ERROR);
    assert_eq!(internal.message, "oops");
    let own = JsonRpcError {
        code: JsonRpcErrorCode::new_unchecked(7),
        message: "own".to_owned(),
        data: None,
    };
    assert_eq!(told(HandleMethodError::from(own.clone())), own);
    assert_eq!(
        NullService.handle_method("m", None),
        Err(HandleMethodError::MethodNotFound)
    );
    assert_eq!(HandleMethodError::DropConnection.into_json_rpc_error("m"), None);
}

#[test]
fn clients_number_the_calls_of_a_batch() {
    let mut builder = JsonRpcClientBatchRequestBuilder::new();
    builder.call_method("first", None);
    builder.notify("note", Some(JsonRpcParams::Array(vec![JsonValue::Null])));
    builder.call_method("second", None);
    assert_eq!(builder.num_method_calls(), 2);
    let message = builder.into_message(10);
    let text = "[{\"jsonrpc\":\"2.0\",\"method\":\"note\",\"params\":[null]},\
                {\"id\":10,\"jsonrpc\":\"2.0\",\"method\":\"first\"},\
                {\"id\":11,\"jsonrpc\":\"2.0\",\"method\":\"second\"}]";
    assert_eq!(JsonValue::from(message), read_json(text).unwrap());
}

#[test]
fn clients_send_notifications_and_calls() {
    assert_eq!(
        JsonValue::from(notification_message("n", None)),
        read_json("{\"jsonrpc\":\"2.0\",\"method\":\"n\"}").unwrap()
    );
    let params = positional_params(vec![JsonValue::from_i64(1)]);
    assert_eq!(
        JsonValue::from(method_call_message(-3, "c", params)),
        read_json("{\"id\":-3,\"jsonrpc\":\"2.0\",\"method\":\"c\",\"params\":[1]}").unwrap()
    );
    assert_eq!(positional_params(Vec::new()), None);
}

#[test]
fn arguments_are_written_in_order() {
    let error = |message: &str| JsonTextError { message: message.to_owned() };
    assert_eq!(params_to_json(Vec::new()), Ok(None));
    assert_eq!(
        params_to_json(vec![Ok(JsonValue::Null), Ok(JsonValue::Bool(true))]),
        Ok(Some(JsonRpcParams::Array(vec![JsonValue::Null, JsonValue::Bool(true)])))
    );
    assert_eq!(
        params_to_json(vec![Ok(JsonValue::Null), Err(error("first")), Err(error("second"))]),
        Err(error("first"))
    );
}

#[test]
fn replies_are_passed_on() {
    assert!(after_notification(Ok(())).is_ok());
    match after_notification(Err(ClientSendRequestError::ConnectionDropped)) {
        Err(ClientSendNotificationError::ConnectionDropped) => (),
        other => panic!("{:?}", other),
    }
    let value: Result<Result<u8, u8>, ClientCallMethodError<&str>> = after_call(Ok(Ok(Ok(1))));
    assert_eq!(value.unwrap(), Ok(1));
    let error: Result<Result<u8, u8>, ClientCallMethodError<&str>> = after_call(Ok(Err(2)));
    assert_eq!(error.unwrap(), Err(2));
    let unread: Result<Result<u8, u8>, ClientCallMethodError<&str>> =
        after_call(Ok(Ok(Err("no number"))));
    match unread {
        Err(ClientCallMethodError::ParseResponse { source }) => assert_eq!(source, "no number"),
        other => panic!("{:?}", other),
    }
    let broken: Result<Result<u8, u8>, ClientCallMethodError<&str>> =
        after_call(Err(ClientSendRequestError::Io { source: io_error() }));
    match broken {
        Err(ClientCallMethodError::Io { source }) => assert_eq!(source.to_string(), "broken pipe"),
        other => panic!("{:?}", other),
    }
}

#[test]
fn client_errors_have_words() {
    assert!(after_write(Some(Ok(()))).is_ok());
    let dropped = after_write(None).unwrap_err();
    assert_eq!(dropped.message(), "the connection to the server has been dropped");
    let broken = after_write(Some(Err(io_error()))).unwrap_err();
    assert_eq!(broken.message(), "io error sending request: broken pipe");
    assert_eq!(broken.message_with("words"), "io error sending request: words");
    assert_eq!(
        dropped.message_with("words"),
        "the connection to the server has been dropped"
    );
    assert_eq!(after_wait(Some(5)).unwrap(), 5);
    assert!(after_wait::<u8>(None).is_err());

    let notification = ClientSendNotificationError::from(broken);
    assert_eq!(notification.message(), "io error sending notification: broken pipe");
    assert_eq!(notification.message_with("words"), "io error sending notification: words");
    let notification =
        ClientSendNotificationError::from(ClientSendRequestError::ConnectionDropped);
    assert_eq!(notification.message(), "connection with server has been dropped");
    let source = JsonTextError { message: "bad key".to_owned() };
    let serialize = ClientSendNotificationError::Serialize { source };
    assert_eq!(serialize.message(), "error serializing parameters: bad key");

    let call: ClientCallMethodError<u8> =
        ClientCallMethodError::from(ClientSendRequestError::Io { source: io_error() });
    assert_eq!(call.message(""), "io error calling method: broken pipe");
    assert_eq!(call.message_with("words", "one"), "io error calling method: words");
    let call: ClientCallMethodError<u8> =
        ClientCallMethodError::from(ClientSendRequestError::ConnectionDropped);
    assert_eq!(call.message(""), "connection with server has been dropped");
    let call: ClientCallMethodError<u8> = ClientCallMethodError::ParseResponse { source: 1 };
    assert_eq!(call.message("one"), "error parsing response: one");
    let source = JsonTextError { message: "bad key".to_owned() };
    let call: ClientCallMethodError<u8> = ClientCallMethodError::Serialize { source };
    assert_eq!(call.message(""), "error serializing parameters: bad key");
}

fn over_the_wire(message: JsonRpcMessage) -> JsonRpcMessage {
    let line = String::from_utf8(encode_message(message)).unwrap();
    decode_line(&line).unwrap()
}

#[test]
fn a_batch_goes_there_and_back() {
    let mut map: ResponseMap<&str, &str> = ResponseMap::new();
    map.insert_single("earlier");
    let mut builder = JsonRpcClientBatchRequestBuilder::new();
    builder.notify("note", None);
    builder.call_method("double", positional_params(vec![JsonValue::from_i64(4)]));
    builder.call_method("unknown", None);
    builder.call_method("double", positional_params(vec![JsonValue::from_i64(5)]));
    let first = map.insert_batch(builder.num_method_calls(), "batch");
    let sent = over_the_wire(builder.into_message(first));

    let mut state = SessionState::new(1);
    let (tasks, mut pending) = match state.on_message(Ok(sent)) {
        SessionStep::Handle { tasks, pending } => (tasks, pending),
        _ => panic!("not handled"),
    };
    let mut written = Vec::new();
    for task in tasks.into_iter().rev() {
        let after = match task {
            SessionTask::Notification { .. } => state.on_notification(),
            SessionTask::MethodCall { id, method, params } => {
                let outcome = match (method.as_str(), params) {
                    ("double", Some(JsonRpcParams::Array(values))) => {
                        let doubled = if values[0] == JsonValue::from_i64(4) { 8 } else { 10 };
                        Ok(JsonValue::from_i64(doubled))
                    },
                    _ => Err(HandleMethodError::MethodNotFound),
                };
                state.on_method_call(&mut pending, id, &method, outcome)
            },
        };
        if let AfterRequest::Write { message } = after {
            written.push(message);
        }
    }
    assert_eq!(written.len(), 1);
    let answer = match over_the_wire(written.remove(0)) {
        JsonRpcMessage::Response(responses) => responses,
        _ => panic!("no response"),
    };
    match map.handle_incoming_response(answer) {
        Delivery::Batch { sender, results } => {
            assert_eq!(sender, "batch");
            assert_eq!(results[0], Ok(JsonValue::from_i64(8)));
            assert_eq!(
                results[1].as_ref().unwrap_err().message,
                "method 'unknown' not found"
            );
            assert_eq!(results[2], Ok(JsonValue::from_i64(10)));
        },
        _ => panic!("not delivered"),
    }
}

#[test]
fn a_call_goes_there_and_back() {
    let mut map: ResponseMap<&str, &str> = ResponseMap::new();
    let id = map.insert_single("caller");
    let sent = over_the_wire(method_call_message(id, "echo", None));
    let mut state = SessionState::new(3);
    let (tasks, mut pending) = match state.on_message(Ok(sent)) {
        SessionStep::Handle { tasks, pending } => (tasks, pending),
        _ => panic!("not handled"),
    };
    let after = match tasks.into_iter().next() {
        Some(SessionTask::MethodCall { id, method, .. }) => {
            state.on_method_call(&mut pending, id, &method, Ok(JsonValue::from_text("hello")))
        },
        _ => panic!("no call"),
    };
    let answer = match after {
        AfterRequest::Write { message } => match over_the_wire(message) {
            JsonRpcMessage::Response(responses) => responses,
            _ => panic!("no response"),
        },
        _ => panic!("not answered"),
    };
    match map.handle_incoming_response(answer) {
        Delivery::Single { sender, result } => {
            assert_eq!(sender, "caller");
            assert_eq!(result, Ok(JsonValue::from_text("hello")));
        },
        _ => panic!("not delivered"),
    }
}
