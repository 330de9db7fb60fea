use crate::json_value;
use crate::json_value::{JsonMap, JsonValue, JsonView};
use vstd::prelude::*;

verus! {

/// The parameters of a request, by position or by name.
#[derive(Debug, PartialEq)]
pub enum JsonRpcParams {
    Array(Vec<JsonValue>),
    Object(JsonMap),
}

/// What parameters are.
pub enum JsonRpcParamsView {
    Array(Seq<JsonView>),
    Object(Map<Seq<char>, JsonView>),
}

/// Why a JSON value cannot be parameters.
#[derive(Debug, Clone, Copy, PartialEq, Eq, Structural)]
pub enum JsonRpcParamsFromJsonError {
    InvalidJsonType,
}

impl JsonRpcParamsView {
    /// The parameters as a JSON value.
    pub open spec fn to_json(self) -> JsonView {
        match self {
            JsonRpcParamsView::Array(items) => JsonView::Array(items),
            JsonRpcParamsView::Object(fields) => JsonView::Object(fields),
        }
    }
}

/// The parameters that a JSON value is.
pub open spec fn params_from_json(json: JsonView) -> Result<
    JsonRpcParamsView,
    JsonRpcParamsFromJsonError,
> {
    match json {
        JsonView::Array(items) => Ok(JsonRpcParamsView::Array(items)),
        JsonView::Object(fields) => Ok(JsonRpcParamsView::Object(fields)),
        _ => Err(JsonRpcParamsFromJsonError::InvalidJsonType),
    }
}

/// What reading parameters gave.
pub open spec fn params_read(read: Result<JsonRpcParams, JsonRpcParamsFromJsonError>) -> Result<
    JsonRpcParamsView,
    JsonRpcParamsFromJsonError,
> {
    match read {
        Ok(value) => Ok(value@),
        Err(error) => Err(error),
    }
}

/// What optional parameters are.
pub open spec fn params_option_view(params: Option<JsonRpcParams>) -> Option<JsonRpcParamsView> {
    match params {
        Some(params) => Some(params@),
        None => None,
    }
}

/// Parameters read back from the JSON value they are written as are the same parameters.
pub proof fn params_round_trip(params: JsonRpcParamsView)
    ensures
        params_from_json(params.to_json()) == Ok::<JsonRpcParamsView, JsonRpcParamsFromJsonError>(
            params,
        ),
{
}

impl JsonRpcParams {
    /// What the parameters are.
    pub open spec fn view(&self) -> JsonRpcParamsView {
        match *self {
            JsonRpcParams::Array(items) => JsonRpcParamsView::Array(
                json_value::values_view(items@),
            ),
            JsonRpcParams::Object(map) => JsonRpcParamsView::Object(map@),
        }
    }

    /// Reads the parameters that a JSON value is; the error is a message for people.
    pub fn from_json(json: JsonValue) -> (read: Result<JsonRpcParams, String>)
        ensures
            match read {
                Ok(params) => params_from_json(json@) == params_read(Ok(params)),
                Err(message) => {
                    &&& params_from_json(json@) is Err
                    &&& message@ == "request params must be an array or object"@
                },
            },
    {
        match JsonRpcParams::try_from(json) {
            Ok(params) => Ok(params),
            Err(_) => Err("request params must be an array or object".to_owned()),
        }
    }
}

impl Clone for JsonRpcParams {
    fn clone(&self) -> (copy: JsonRpcParams)
        ensures
            copy@ == self@,
    {
        match self {
            JsonRpcParams::Array(items) => {
                let mut copies: Vec<JsonValue> = Vec::new();
                for i in 0..items.len()
                    invariant
                        copies@.len() == i,
                        forall|k: int|
                            #![trigger copies@[k]]
                            0 <= k < i ==> copies@[k]@ == items@[k]@,
                {
                    copies.push(items[i].clone());
                }
                assert(json_value::values_view(copies@) =~= json_value::values_view(items@));
                JsonRpcParams::Array(copies)
            },
            JsonRpcParams::Object(map) => JsonRpcParams::Object(map.clone()),
        }
    }
}

impl From<JsonRpcParams> for JsonValue {
    fn from(json_rpc_params: JsonRpcParams) -> (json: JsonValue)
        ensures
            json@ == json_rpc_params@.to_json(),
    {
        match json_rpc_params {
            JsonRpcParams::Array(array) => JsonValue::Array(array),
            JsonRpcParams::Object(map) => JsonValue::Object(map),
        }
    }
}

impl vstd::std_specs::convert::FromSpecImpl<JsonRpcParams> for JsonValue {
    open spec fn obeys_from_spec() -> bool {
        false
    }

    open spec fn from_spec(json_rpc_params: JsonRpcParams) -> JsonValue {
        arbitrary()
    }
}

impl TryFrom<JsonValue> for JsonRpcParams {
    type Error = JsonRpcParamsFromJsonError;

    fn try_from(json: JsonValue) -> (read: Result<JsonRpcParams, JsonRpcParamsFromJsonError>)
        ensures
            params_read(read) == params_from_json(json@),
    {
        match json {
            JsonValue::Array(array) => Ok(JsonRpcParams::Array(array)),
            JsonValue::Object(map) => Ok(JsonRpcParams::Object(map)),
            _ => Err(JsonRpcParamsFromJsonError::InvalidJsonType),
        }
    }
}

impl vstd::std_specs::convert::TryFromSpecImpl<JsonValue> for JsonRpcParams {
    open spec fn obeys_try_from_spec() -> bool {
        false
    }

    open spec fn try_from_spec(json: JsonValue) -> Result<JsonRpcParams, JsonRpcParamsFromJsonError> {
        arbitrary()
    }
}

impl JsonRpcParamsFromJsonError {
    /// The error in words.
    pub open spec fn text(self) -> Seq<char> {
        "params must be an array or object"@
    }

    /// Says in words what is wrong.
    pub fn message(&self) -> (message: String)
        ensures
            message@ == self.text(),
    {
        "params must be an array or object".to_owned()
    }
}

} // verus!
