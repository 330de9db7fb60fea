use electrs_json_rpc::error_codes;
use electrs_json_rpc::json_codec::read_json;
use electrs_json_rpc::json_types::json_rpc_error_code::json_rpc_error_code;
use electrs_json_rpc::json_types::{
    JsonRpcError, JsonRpcErrorCode, JsonRpcErrorCodeFromJsonError, JsonRpcErrorFromJsonError,
    JsonRpcId, JsonRpcIdFromJsonError, JsonRpcMessage, JsonRpcMessageFromJsonError, JsonRpcParams,
    JsonRpcParamsFromJsonError, JsonRpcRequest, JsonRpcRequestFromJsonError, JsonRpcRequests,
    JsonRpcRequestsFromJsonError, JsonRpcResponse, JsonRpcResponseFromJsonError, JsonRpcResponses,
    JsonRpcResponsesFromJsonError,
};
use electrs_json_rpc::json_value::JsonValue;
use electrs_json_rpc::message_io::{
    decode_line, encode_message, read_outcome, JsonRpcMessageReader, JsonRpcMessageWriter,
    ReadMessageError,
};

fn json(text: &str) -> JsonValue {
    read_json(text).unwrap()
}

fn call(id: i64) -> JsonRpcRequest {
    JsonRpcRequest {
        method: "delay".to_owned(),
        params: Some(JsonRpcParams::Array(vec![JsonValue::from_i64(id)])),
        id: Some(JsonRpcId::Number(id)),
    }
}

fn success(id: i64) -> JsonRpcResponse {
    JsonRpcResponse { id: JsonRpcId::Number(id), result: Ok(JsonValue::from_text("done")) }
}

fn failure(id: JsonRpcId) -> JsonRpcResponse {
    JsonRpcResponse {
        id,
        result: Err(JsonRpcError {
            code: JsonRpcErrorCode::new_unchecked(error_codes::INTERNAL_ERROR),
            message: "broken".to_owned(),
            data: Some(JsonValue::Bool(true)),
        }),
    }
}

#[test]
fn ids_are_written_and_read() {
    for id in vec![JsonRpcId::Null, JsonRpcId::Number(-7), JsonRpcId::String("x".to_owned())] {
        assert_eq!(JsonRpcId::try_from(id.clone().into_json()).unwrap(), id);
        assert_eq!(JsonRpcId::from_json(JsonValue::from(id.clone())).unwrap(), id);
    }
    assert_eq!(
        JsonRpcId::try_from(json("1.5")).unwrap_err(),
        JsonRpcIdFromJsonError::NumericIdOutOfRange
    );
    assert_eq!(
        JsonRpcId::from_json(json("9223372036854775808")).unwrap_err(),
        "numeric request id out of range or not an integer"
    );
    assert_eq!(
        JsonRpcId::from_json(json("[]")).unwrap_err(),
        "request id must be null, a number, or a string"
    );
}

#[test]
fn error_codes_are_read_within_their_range() {
    assert_eq!(JsonRpcErrorCode::try_from(json("-32700")).unwrap().code(), -32700);
    assert_eq!(JsonRpcErrorCode::try_from(json("32767")).unwrap().code(), i16::MAX);
    assert_eq!(json_rpc_error_code(1).code(), 1);
    let out_of_range = JsonRpcErrorCode::try_from(json("32768")).unwrap_err();
    assert_eq!(out_of_range, JsonRpcErrorCodeFromJsonError::ErrorCodeOutOfRange);
    assert_eq!(out_of_range.message(), "out of range");
    let no_number = JsonRpcErrorCode::try_from(json("\"1\"")).unwrap_err();
    assert_eq!(no_number, JsonRpcErrorCodeFromJsonError::ExpectedNumberForCode);
    assert_eq!(no_number.message(), "not a number");
    assert_eq!(JsonValue::from(JsonRpcErrorCode::new_unchecked(-5)), json("-5"));
}

#[test]
fn errors_are_written_and_read() {
    let with_data = json("{\"code\":-32603,\"message\":\"broken\",\"data\":true}");
    let error = JsonRpcError::try_from(with_data.clone()).unwrap();
    assert_eq!(error.clone().into_json(), with_data);
    assert_eq!(JsonValue::from(error), with_data);
    let without_data = json("{\"code\":1,\"message\":\"m\"}");
    let error = JsonRpcError::try_from(without_data.clone()).unwrap();
    assert_eq!(error.data, None);
    assert_eq!(error.into_json(), without_data);
}

#[test]
fn malformed_errors_are_refused() {
    let read = |text: &str| JsonRpcError::try_from(json(text)).unwrap_err();
    assert_eq!(read("1"), JsonRpcErrorFromJsonError::ExpectedObject);
    assert_eq!(read("{\"message\":\"m\"}"), JsonRpcErrorFromJsonError::MissingCode);
    assert_eq!(
        read("{\"code\":70000,\"message\":\"m\"}"),
        JsonRpcErrorFromJsonError::MalformedCode {
            source: JsonRpcErrorCodeFromJsonError::ErrorCodeOutOfRange,
        }
    );
    assert_eq!(read("{\"code\":1}"), JsonRpcErrorFromJsonError::MissingMessage);
    assert_eq!(
        read("{\"code\":1,\"message\":2}"),
        JsonRpcErrorFromJsonError::ExpectedStringForMessage
    );
    assert_eq!(
        read("{\"code\":1,\"message\":\"m\",\"z\":1,\"extra\":2}"),
        JsonRpcErrorFromJsonError::UnrecognizedField { field: "extra".to_owned() }
    );
    assert_eq!(read("1").message(), "json-rpc-error must be json object");
    assert_eq!(read("{\"code\":[]}").message(), "malformed error code: not a number");
    assert_eq!(read("{}").message(), "missing error code");
    assert_eq!(read("{\"code\":1}").message(), "missing error message");
    assert_eq!(read("{\"code\":1,\"message\":2}").message(), "error message is not a string");
    assert_eq!(
        read("{\"code\":1,\"message\":\"m\",\"extra\":2}").message(),
        "unrecognized field 'extra'"
    );
}

#[test]
fn params_are_arrays_or_objects() {
    let array = JsonRpcParams::try_from(json("[1]")).unwrap();
    assert_eq!(JsonValue::from(array.clone()), json("[1]"));
    assert_eq!(JsonRpcParams::from_json(json("{\"a\":1}")).unwrap(), {
        JsonRpcParams::try_from(json("{\"a\":1}")).unwrap()
    });
    let error = JsonRpcParams::try_from(json("1")).unwrap_err();
    assert_eq!(error, JsonRpcParamsFromJsonError::InvalidJsonType);
    assert_eq!(error.message(), "params must be an array or object");
    assert_eq!(
        JsonRpcParams::from_json(json("null")).unwrap_err(),
        "request params must be an array or object"
    );
}

#[test]
fn requests_are_written_and_read() {
    let texts = vec![
        "{\"jsonrpc\":\"2.0\",\"method\":\"m\"}",
        "{\"jsonrpc\":\"2.0\",\"method\":\"m\",\"id\":null}",
        "{\"jsonrpc\":\"2.0\",\"method\":\"m\",\"params\":[1,2]}",
        "{\"jsonrpc\":\"2.0\",\"method\":\"m\",\"params\":{\"a\":1},\"id\":\"x\"}",
    ];
    for text in texts {
        let request = JsonRpcRequest::try_from(json(text)).unwrap();
        assert_eq!(JsonValue::from(request.clone()), json(text));
        assert_eq!(JsonRpcRequest::from_json(json(text)).unwrap(), request);
    }
}

#[test]
fn malformed_requests_are_refused() {
    let id = Some(JsonRpcId::Number(4));
    let cases = vec![
        (
            "[]",
            JsonRpcRequestFromJsonError::InvalidJsonType,
            "json-rpc request must be a json object",
            "request must be an object",
        ),
        (
            "{\"id\":[]}",
            JsonRpcRequestFromJsonError::MalformedId {
                source: JsonRpcIdFromJsonError::InvalidJsonType,
            },
            "malformed request id: request id must be null, a number, or a string",
            "request id must be null, a number, or a string",
        ),
        (
            "{\"id\":4,\"jsonrpc\":\"1.0\"}",
            JsonRpcRequestFromJsonError::UnrecognizedVersion {
                version: "1.0".to_owned(),
                id: id.clone(),
            },
            "unrecognized json-rpc protocol version (1.0)",
            "jsonrpc version number must be 2.0",
        ),
        (
            "{\"id\":4,\"jsonrpc\":2.0}",
            JsonRpcRequestFromJsonError::InvalidTypeForVersion { id: id.clone() },
            "jsonrpc version field must be a string",
            "jsonrpc version must be a string",
        ),
        (
            "{\"id\":4,\"method\":\"m\"}",
            JsonRpcRequestFromJsonError::MissingVersion { id: id.clone() },
            "missing jsonrpc version field",
            "jsonrpc version not specified",
        ),
        (
            "{\"id\":4,\"jsonrpc\":\"2.0\",\"method\":7}",
            JsonRpcRequestFromJsonError::InvalidTypeForMethod { id: id.clone() },
            "request method field must be a string",
            "method must be a string",
        ),
        (
            "{\"id\":4,\"jsonrpc\":\"2.0\"}",
            JsonRpcRequestFromJsonError::MissingMethod { id: id.clone() },
            "missing request method field",
            "method not specified",
        ),
        (
            "{\"id\":4,\"jsonrpc\":\"2.0\",\"method\":\"m\",\"params\":3}",
            JsonRpcRequestFromJsonError::MalformedParams {
                source: JsonRpcParamsFromJsonError::InvalidJsonType,
                id: id.clone(),
            },
            "malformed request params: params must be an array or object",
            "request params must be an array or object",
        ),
        (
            "{\"id\":4,\"jsonrpc\":\"2.0\",\"method\":\"m\",\"y\":1,\"x\":2}",
            JsonRpcRequestFromJsonError::UnrecognizedField {
                field: "x".to_owned(),
                id: id.clone(),
            },
            "unrecognized field 'x'",
            "unexpected key in request: x",
        ),
    ];
    for (text, error, message, short) in cases {
        let read = JsonRpcRequest::try_from(json(text)).unwrap_err();
        assert_eq!(read, error);
        assert_eq!(read.message(), message);
        let (id, words) = JsonRpcRequest::from_json(json(text)).unwrap_err();
        assert_eq!(words, short);
        assert_eq!(id, read.id());
        let response = read.into_error_response();
        assert_eq!(response.id, id.unwrap_or(JsonRpcId::Null));
        let told = response.result.unwrap_err();
        assert_eq!(told.code.code(), error_codes::INVALID_REQUEST);
        assert_eq!(told.message, message);
        assert_eq!(told.data, None);
    }
}

#[test]
fn responses_are_written_and_read() {
    let texts = vec![
        "{\"jsonrpc\":\"2.0\",\"id\":1,\"result\":null}",
        "{\"jsonrpc\":\"2.0\",\"id\":null,\"error\":{\"code\":1,\"message\":\"m\"}}",
    ];
    for text in texts {
        let response = JsonRpcResponse::try_from(json(text)).unwrap();
        assert_eq!(response.clone().into_json(), json(text));
        assert_eq!(JsonValue::from(response), json(text));
    }
}

#[test]
fn malformed_responses_are_refused() {
    let id = JsonRpcId::Number(1);
    let cases = vec![
        (
            "1",
            JsonRpcResponseFromJsonError::ExpectedObject,
            "json-rpc response must be a json object",
        ),
        ("{\"result\":1}", JsonRpcResponseFromJsonError::MissingId, "missing response id"),
        (
            "{\"id\":1.5,\"result\":1}",
            JsonRpcResponseFromJsonError::MalformedId {
                source: JsonRpcIdFromJsonError::NumericIdOutOfRange,
            },
            "malformed response id: numeric request id out of range or not an integer",
        ),
        (
            "{\"id\":1,\"jsonrpc\":\"3\",\"result\":1}",
            JsonRpcResponseFromJsonError::UnrecognizedVersion {
                version: "3".to_owned(),
                id: id.clone(),
            },
            "unrecognized json-rpc protocol version (3)",
        ),
        (
            "{\"id\":1,\"jsonrpc\":3,\"result\":1}",
            JsonRpcResponseFromJsonError::InvalidTypeForVersion { id: id.clone() },
            "jsonrpc version field must be a string",
        ),
        (
            "{\"id\":1,\"result\":1}",
            JsonRpcResponseFromJsonError::MissingVersion { id: id.clone() },
            "missing jsonrpc version field",
        ),
        (
            "{\"id\":1,\"jsonrpc\":\"2.0\",\"error\":1}",
            JsonRpcResponseFromJsonError::MalformedErrorField {
                source: JsonRpcErrorFromJsonError::ExpectedObject,
                id: id.clone(),
            },
            "malformed error field: ",
        ),
        (
            "{\"id\":1,\"jsonrpc\":\"2.0\"}",
            JsonRpcResponseFromJsonError::MissingResultAndError { id: id.clone() },
            "response missing result/error field",
        ),
        (
            "{\"id\":1,\"jsonrpc\":\"2.0\",\"result\":1,\"error\":2}",
            JsonRpcResponseFromJsonError::UnrecognizedField {
                field: "error".to_owned(),
                id: id.clone(),
            },
            "unrecognized response field 'error'",
        ),
    ];
    for (text, error, message) in cases {
        let read = JsonRpcResponse::try_from(json(text)).unwrap_err();
        assert_eq!(read, error);
        assert!(read.message().starts_with(message));
    }
}

#[test]
fn batches_of_requests_are_read() {
    let batch = JsonRpcRequests::Batch(vec![call(1), call(2)]);
    assert_eq!(JsonRpcRequests::try_from(JsonValue::from(batch.clone())).unwrap(), batch);
    let single = JsonRpcRequests::Single(call(3));
    assert_eq!(JsonRpcRequests::try_from(JsonValue::from(single.clone())).unwrap(), single);
    assert_eq!(
        JsonRpcRequests::try_from(json("[]")).unwrap_err(),
        JsonRpcRequestsFromJsonError::EmptyBatchArray
    );
    let other = JsonRpcRequests::try_from(json("1")).unwrap_err();
    assert_eq!(other, JsonRpcRequestsFromJsonError::InvalidJsonType);
    assert_eq!(other.message(), "expected a request json object or json array of requests");
    assert_eq!(
        JsonRpcRequests::try_from(json("[{}]")).unwrap_err().message(),
        "malformed request: missing jsonrpc version field"
    );
}

#[test]
fn batches_of_responses_are_read() {
    let batch = JsonRpcResponses::Batch(vec![success(1), failure(JsonRpcId::Null)]);
    assert_eq!(JsonRpcResponses::try_from(JsonValue::from(batch.clone())).unwrap(), batch);
    let single = JsonRpcResponses::Single(success(3));
    assert_eq!(JsonRpcResponses::try_from(JsonValue::from(single.clone())).unwrap(), single);
    assert_eq!(
        JsonRpcResponses::try_from(json("[]")).unwrap_err().message(),
        "empty batch array"
    );
    assert_eq!(
        JsonRpcResponses::try_from(json("null")).unwrap_err(),
        JsonRpcResponsesFromJsonError::InvalidJsonType
    );
    assert_eq!(
        JsonRpcResponses::try_from(json("[{}]")).unwrap_err().message(),
        "malformed response: missing response id"
    );
}

#[test]
fn messages_are_written_and_read() {
    let messages = vec![
        JsonRpcMessage::Request(JsonRpcRequests::Single(call(1))),
        JsonRpcMessage::Request(JsonRpcRequests::Batch(vec![call(1), call(2)])),
        JsonRpcMessage::Response(JsonRpcResponses::Single(failure(JsonRpcId::Number(5)))),
        JsonRpcMessage::Response(JsonRpcResponses::Batch(vec![success(2), success(1)])),
    ];
    for message in messages {
        assert_eq!(JsonRpcMessage::try_from(JsonValue::from(message.clone())).unwrap(), message);
        let bytes = encode_message(message.clone());
        assert_eq!(bytes.iter().filter(|byte| **byte == 10).count(), 1);
        assert_eq!(bytes.last(), Some(&10));
        let line = String::from_utf8(bytes).unwrap();
        assert_eq!(decode_line(&line).unwrap(), message);
    }
}

#[test]
fn what_is_a_message_is_written_back() {
    for text in vec![
        "{\"method\":\"m\",\"jsonrpc\":\"2.0\"}",
        "{\"id\":null,\"method\":\"m\",\"params\":{\"a\":1.5},\"jsonrpc\":\"2.0\"}",
        "{\"id\":1,\"jsonrpc\":\"2.0\",\"result\":null}",
        "{\"error\":{\"data\":[],\"message\":\"m\",\"code\":1},\"id\":\"a\",\"jsonrpc\":\"2.0\"}",
        "[{\"id\":1,\"jsonrpc\":\"2.0\",\"result\":2},{\"id\":2,\"jsonrpc\":\"2.0\",\"result\":3}]",
    ] {
        let message = JsonRpcMessage::try_from(json(text)).unwrap();
        assert_eq!(JsonValue::from(message), json(text));
    }
}

#[test]
fn what_is_no_message_is_refused() {
    let request = "{\"jsonrpc\":\"2.0\",\"method\":\"m\"}";
    let response = "{\"jsonrpc\":\"2.0\",\"id\":1,\"result\":1}";
    let cases = vec![
        ("1".to_owned(), "json-rpc messages must be json arrays or json objects"),
        ("{}".to_owned(), "malformed request/response object"),
        ("[]".to_owned(), "empty batch array"),
        (format!("[{},1]", request), "request/response at index 1 is not an object"),
        (format!("[{},{{}}]", request), "malformed request/response object at index 1"),
        (
            format!("[{},{}]", request, response),
            "batch array contains both requests and responses",
        ),
        ("{\"method\":\"m\"}".to_owned(), "malformed request: missing jsonrpc version field"),
        (
            format!("[{},{},{{\"method\":1}}]", request, request),
            "malformed request at index 2: missing jsonrpc version field",
        ),
        ("{\"error\":1}".to_owned(), "malformed response: missing response id"),
        (
            format!("[{},{{\"result\":1}}]", response),
            "malformed response at index 1: missing response id",
        ),
    ];
    for (text, message) in cases {
        let error = JsonRpcMessage::try_from(json(&text)).unwrap_err();
        assert_eq!(error.message(), message);
    }
}

#[test]
fn only_malformed_requests_are_answered() {
    let malformed = JsonRpcMessage::try_from(json("{\"id\":3,\"method\":\"m\"}")).unwrap_err();
    let answer = malformed.as_error_response().unwrap();
    assert_eq!(answer.id, JsonRpcId::Number(3));
    let in_batch = JsonRpcMessage::try_from(json("[{\"method\":\"m\"}]")).unwrap_err();
    assert_eq!(in_batch.as_error_response().unwrap().id, JsonRpcId::Null);
    let response = JsonRpcMessage::try_from(json("{\"result\":1}")).unwrap_err();
    assert_eq!(response.as_error_response(), None);
    let neither = JsonRpcMessage::try_from(json("{}")).unwrap_err();
    assert_eq!(neither, JsonRpcMessageFromJsonError::MalformedObject);
    assert_eq!(neither.as_error_response(), None);
}

#[test]
fn lines_that_are_no_json_may_be_batches() {
    let line = " [1, \n";
    match decode_line(line).unwrap_err() {
        ReadMessageError::Deserialize { possible_batch_request, .. } => {
            assert!(!possible_batch_request)
        },
        other => panic!("{:?}", other),
    }
    let error = decode_line(" [1,] \n").unwrap_err();
    assert_eq!(error.message(), "error derializing json: trailing comma at line 1 column 5");
    let answer = error.as_error_response().unwrap();
    assert_eq!(answer.id, JsonRpcId::Null);
    let told = answer.result.unwrap_err();
    assert_eq!(told.code.code(), error_codes::INVALID_REQUEST);
    assert_eq!(told.message, "trailing comma at line 1 column 5");
    assert_eq!(decode_line("{\n").unwrap_err().as_error_response(), None);
}

#[test]
fn reads_end_with_the_stream() {
    assert!(read_outcome(Ok(0), "").unwrap().is_none());
    let line = "{\"jsonrpc\":\"2.0\",\"id\":1,\"result\":\"done\"}\n";
    assert_eq!(
        read_outcome(Ok(line.len()), line).unwrap(),
        Some(JsonRpcMessage::Response(JsonRpcResponses::Single(success(1))))
    );
    let parse = read_outcome(Ok(2), "{}").unwrap_err();
    assert_eq!(
        parse.message(),
        "error parsing json-rpc message: malformed request/response object"
    );
    let broken = std::io::Error::new(std::io::ErrorKind::Other, "broken pipe");
    let error = read_outcome(Err(broken), "").unwrap_err();
    assert_eq!(error.message(), "io error reading stream: broken pipe");
    assert_eq!(error.message_with("words"), "io error reading stream: words");
    assert_eq!(error.as_error_response(), None);
}

#[test]
fn readers_and_writers_hold_their_streams() {
    assert_eq!(JsonRpcMessageWriter::new(7).writer, 7);
    assert_eq!(JsonRpcMessageReader::new("stream").reader, "stream");
}
