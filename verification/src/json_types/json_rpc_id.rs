use crate::json_value::{JsonValue, JsonView};
use vstd::prelude::*;

verus! {

/// What a request is known by.
#[derive(Debug, PartialEq, Eq, PartialOrd, Ord, Hash)]
pub enum JsonRpcId {
    Null,
    Number(i64),
    String(String),
}

/// What an id is.
pub enum JsonRpcIdView {
    Null,
    Number(i64),
    String(Seq<char>),
}

/// Why a JSON value is no id.
#[derive(Debug, Clone, Copy, PartialEq, Eq, Structural)]
pub enum JsonRpcIdFromJsonError {
    NumericIdOutOfRange,
    InvalidJsonType,
}

impl JsonRpcIdView {
    /// The id as a JSON value.
    pub open spec fn to_json(self) -> JsonView {
        match self {
            JsonRpcIdView::Null => JsonView::Null,
            JsonRpcIdView::Number(n) => JsonView::Int(n as int),
            JsonRpcIdView::String(s) => JsonView::String(s),
        }
    }
}

/// The id that a JSON value is.
pub open spec fn id_from_json(json: JsonView) -> Result<JsonRpcIdView, JsonRpcIdFromJsonError> {
    match json {
        JsonView::Null => Ok(JsonRpcIdView::Null),
        JsonView::Int(n) => if i64::MIN <= n <= i64::MAX {
            Ok(JsonRpcIdView::Number(n as i64))
        } else {
            Err(JsonRpcIdFromJsonError::NumericIdOutOfRange)
        },
        JsonView::Float(_) => Err(JsonRpcIdFromJsonError::NumericIdOutOfRange),
        JsonView::String(s) => Ok(JsonRpcIdView::String(s)),
        _ => Err(JsonRpcIdFromJsonError::InvalidJsonType),
    }
}

/// What reading an id gave.
pub open spec fn id_read(
    read: Result<JsonRpcId, JsonRpcIdFromJsonError>,
) -> Result<JsonRpcIdView, JsonRpcIdFromJsonError> {
    match read {
        Ok(id) => Ok(id@),
        Err(error) => Err(error),
    }
}

/// What an optional id is.
pub open spec fn id_option_view(id: Option<JsonRpcId>) -> Option<JsonRpcIdView> {
    match id {
        Some(id) => Some(id@),
        None => None,
    }
}

/// An id read back from the JSON value it is written as is the same id.
pub proof fn id_round_trip(id: JsonRpcIdView)
    ensures
        id_from_json(id.to_json()) == Ok::<JsonRpcIdView, JsonRpcIdFromJsonError>(id),
{
}

/// An id is null, a text, or an integer that 64 bits hold; a number that is none is told apart from
/// what is no number.
pub proof fn ids_are_refused_for_a_reason(json: JsonView)
    ensures
        id_from_json(json) is Ok <==> json is Null || json is String || (json is Int && i64::MIN
            <= json->Int_0 <= i64::MAX),
        id_from_json(json) is Ok ==> id_from_json(json)->Ok_0.to_json() == json,
        id_from_json(json) is Err ==> (id_from_json(json)->Err_0
            == JsonRpcIdFromJsonError::NumericIdOutOfRange <==> json is Int || json is Float),
{
}

impl JsonRpcId {
    /// What the id is.
    pub open spec fn view(&self) -> JsonRpcIdView {
        match *self {
            JsonRpcId::Null => JsonRpcIdView::Null,
            JsonRpcId::Number(n) => JsonRpcIdView::Number(n),
            JsonRpcId::String(s) => JsonRpcIdView::String(s@),
        }
    }

    /// Writes the id as a JSON value.
    pub fn into_json(self) -> (json: JsonValue)
        ensures
            json@ == self@.to_json(),
    {
        match self {
            JsonRpcId::Null => JsonValue::Null,
            JsonRpcId::Number(n) => JsonValue::from_i64(n),
            JsonRpcId::String(s) => JsonValue::String(s),
        }
    }

    /// Reads the id that a JSON value is; the error is a message for people.
    pub fn from_json(json: JsonValue) -> (read: Result<JsonRpcId, String>)
        ensures
            match read {
                Ok(id) => id_from_json(json@) == id_read(Ok(id)),
                Err(message) => {
                    &&& id_from_json(json@) is Err
                    &&& message@ == id_from_json(json@)->Err_0.text()
                },
            },
    {
        match <JsonRpcId as TryFrom<JsonValue>>::try_from(json) {
            Ok(id) => Ok(id),
            Err(error) => Err(error.message()),
        }
    }
}

impl Clone for JsonRpcId {
    fn clone(&self) -> (copy: JsonRpcId)
        ensures
            copy@ == self@,
    {
        match self {
            JsonRpcId::Null => JsonRpcId::Null,
            JsonRpcId::Number(n) => JsonRpcId::Number(*n),
            JsonRpcId::String(s) => JsonRpcId::String(s.clone()),
        }
    }
}

impl From<JsonRpcId> for JsonValue {
    fn from(json_rpc_id: JsonRpcId) -> (json: JsonValue)
        ensures
            json@ == json_rpc_id@.to_json(),
    {
        json_rpc_id.into_json()
    }
}

impl vstd::std_specs::convert::FromSpecImpl<JsonRpcId> for JsonValue {
    open spec fn obeys_from_spec() -> bool {
        false
    }

    open spec fn from_spec(json_rpc_id: JsonRpcId) -> JsonValue {
        arbitrary()
    }
}

impl TryFrom<JsonValue> for JsonRpcId {
    type Error = JsonRpcIdFromJsonError;

    fn try_from(json: JsonValue) -> (read: Result<JsonRpcId, JsonRpcIdFromJsonError>)
        ensures
            id_read(read) == id_from_json(json@),
    {
        match json {
            JsonValue::Null => Ok(JsonRpcId::Null),
            JsonValue::Number(number) => match number.as_i64() {
                Some(n) => Ok(JsonRpcId::Number(n)),
                None => Err(JsonRpcIdFromJsonError::NumericIdOutOfRange),
            },
            JsonValue::String(s) => Ok(JsonRpcId::String(s)),
            _ => Err(JsonRpcIdFromJsonError::InvalidJsonType),
        }
    }
}

impl vstd::std_specs::convert::TryFromSpecImpl<JsonValue> for JsonRpcId {
    open spec fn obeys_try_from_spec() -> bool {
        false
    }

    open spec fn try_from_spec(json: JsonValue) -> Result<JsonRpcId, JsonRpcIdFromJsonError> {
        arbitrary()
    }
}

impl JsonRpcIdFromJsonError {
    /// The error in words.
    pub open spec fn text(self) -> Seq<char> {
        match self {
            JsonRpcIdFromJsonError::NumericIdOutOfRange =>
                "numeric request id out of range or not an integer"@,
            JsonRpcIdFromJsonError::InvalidJsonType =>
                "request id must be null, a number, or a string"@,
        }
    }

    /// Says in words what is wrong.
    pub fn message(&self) -> (message: String)
        ensures
            message@ == self.text(),
    {
        match self {
            JsonRpcIdFromJsonError::NumericIdOutOfRange =>
                "numeric request id out of range or not an integer".to_owned(),
            JsonRpcIdFromJsonError::InvalidJsonType =>
                "request id must be null, a number, or a string".to_owned(),
        }
    }
}

} // verus!
