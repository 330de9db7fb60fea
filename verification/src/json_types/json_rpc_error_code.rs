use crate::error_codes;
use crate::json_value::{JsonValue, JsonView};
use vstd::prelude::*;

verus! {

/// The code of an error.
#[derive(Debug, Clone, Copy, PartialEq, Eq, Structural)]
pub struct JsonRpcErrorCode {
    code: i16,
}

/// Why a JSON value is no error code.
#[derive(Debug, Clone, Copy, PartialEq, Eq, Structural)]
pub enum JsonRpcErrorCodeFromJsonError {
    ErrorCodeOutOfRange,
    ExpectedNumberForCode,
}

/// The error code that a JSON value is.
pub open spec fn code_from_json(json: JsonView) -> Result<i16, JsonRpcErrorCodeFromJsonError> {
    match json {
        JsonView::Int(n) => if i16::MIN <= n <= i16::MAX {
            Ok(n as i16)
        } else {
            Err(JsonRpcErrorCodeFromJsonError::ErrorCodeOutOfRange)
        },
        JsonView::Float(_) => Err(JsonRpcErrorCodeFromJsonError::ErrorCodeOutOfRange),
        _ => Err(JsonRpcErrorCodeFromJsonError::ExpectedNumberForCode),
    }
}

/// What reading an error code gave.
pub open spec fn code_read(
    read: Result<JsonRpcErrorCode, JsonRpcErrorCodeFromJsonError>,
) -> Result<i16, JsonRpcErrorCodeFromJsonError> {
    match read {
        Ok(code) => Ok(code@),
        Err(error) => Err(error),
    }
}

impl JsonRpcErrorCode {
    /// The number.
    pub closed spec fn view(&self) -> i16 {
        self.code
    }

    /// The error code with the given number, whatever it is.
    pub fn new_unchecked(code: i16) -> (error_code: JsonRpcErrorCode)
        ensures
            error_code@ == code,
    {
        JsonRpcErrorCode { code }
    }

    /// The number.
    pub fn code(&self) -> (code: i16)
        ensures
            code == self@,
    {
        self.code
    }
}

/// The error code with the given number, which has to be free for applications.
pub fn json_rpc_error_code(code: i16) -> (error_code: JsonRpcErrorCode)
    requires
        code > error_codes::MAX_RESERVED_ERROR_CODE,
    ensures
        error_code@ == code,
{
    JsonRpcErrorCode::new_unchecked(code)
}

/// An error code read back from the JSON value it is written as is the same code.
pub proof fn code_round_trip(code: i16)
    ensures
        code_from_json(JsonView::Int(code as int)) == Ok::<i16, JsonRpcErrorCodeFromJsonError>(code),
{
}

/// A code is an integer that 16 bits hold; a number that is none is told apart from what is no
/// number.
pub proof fn codes_are_refused_for_a_reason(json: JsonView)
    ensures
        code_from_json(json) is Ok <==> json is Int && i16::MIN <= json->Int_0 <= i16::MAX,
        code_from_json(json) is Ok ==> json == JsonView::Int(code_from_json(json)->Ok_0 as int),
        code_from_json(json) is Err ==> (code_from_json(json)->Err_0
            == JsonRpcErrorCodeFromJsonError::ErrorCodeOutOfRange <==> json is Int
            || json is Float),
{
}

impl From<JsonRpcErrorCode> for JsonValue {
    fn from(json_rpc_error_code: JsonRpcErrorCode) -> (json: JsonValue)
        ensures
            json@ == JsonView::Int(json_rpc_error_code@ as int),
    {
        JsonValue::from_i64(json_rpc_error_code.code as i64)
    }
}

impl vstd::std_specs::convert::FromSpecImpl<JsonRpcErrorCode> for JsonValue {
    open spec fn obeys_from_spec() -> bool {
        false
    }

    open spec fn from_spec(json_rpc_error_code: JsonRpcErrorCode) -> JsonValue {
        arbitrary()
    }
}

impl TryFrom<JsonValue> for JsonRpcErrorCode {
    type Error = JsonRpcErrorCodeFromJsonError;

    fn try_from(json: JsonValue) -> (read: Result<JsonRpcErrorCode, JsonRpcErrorCodeFromJsonError>)
        ensures
            code_read(read) == code_from_json(json@),
    {
        match json {
            JsonValue::Number(number) => match number.as_i64() {
                Some(n) => if -32768 <= n && n <= 32767 {
                    Ok(JsonRpcErrorCode { code: n as i16 })
                } else {
                    Err(JsonRpcErrorCodeFromJsonError::ErrorCodeOutOfRange)
                },
                None => Err(JsonRpcErrorCodeFromJsonError::ErrorCodeOutOfRange),
            },
            _ => Err(JsonRpcErrorCodeFromJsonError::ExpectedNumberForCode),
        }
    }
}

impl vstd::std_specs::convert::TryFromSpecImpl<JsonValue> for JsonRpcErrorCode {
    open spec fn obeys_try_from_spec() -> bool {
        false
    }

    open spec fn try_from_spec(json: JsonValue) -> Result<
        JsonRpcErrorCode,
        JsonRpcErrorCodeFromJsonError,
    > {
        arbitrary()
    }
}

impl JsonRpcErrorCodeFromJsonError {
    /// The error in words.
    pub open spec fn text(self) -> Seq<char> {
        match self {
            JsonRpcErrorCodeFromJsonError::ErrorCodeOutOfRange => "out of range"@,
            JsonRpcErrorCodeFromJsonError::ExpectedNumberForCode => "not a number"@,
        }
    }

    /// Says in words what is wrong.
    pub fn message(&self) -> (message: String)
        ensures
            message@ == self.text(),
    {
        match self {
            JsonRpcErrorCodeFromJsonError::ErrorCodeOutOfRange => "out of range".to_owned(),
            JsonRpcErrorCodeFromJsonError::ExpectedNumberForCode => "not a number".to_owned(),
        }
    }
}

} // verus!
