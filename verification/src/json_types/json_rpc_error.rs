use crate::json_types::json_rpc_error_code;
use crate::json_types::{JsonRpcErrorCode, JsonRpcErrorCodeFromJsonError};
use crate::json_value;
use crate::json_value::{JsonMap, JsonValue, JsonView};
use crate::text::{join, join3};
use vstd::prelude::*;

verus! {

/// An error that a response carries.
#[derive(Debug, PartialEq)]
pub struct JsonRpcError {
    pub code: JsonRpcErrorCode,
    pub message: String,
    pub data: Option<JsonValue>,
}

/// What an error is.
pub struct JsonRpcErrorView {
    pub code: i16,
    pub message: Seq<char>,
    pub data: Option<JsonView>,
}

/// Why a JSON value is no error.
#[derive(Debug, PartialEq)]
pub enum JsonRpcErrorFromJsonError {
    ExpectedObject,
    MalformedCode { source: JsonRpcErrorCodeFromJsonError },
    MissingCode,
    ExpectedStringForMessage,
    MissingMessage,
    UnrecognizedField { field: String },
}

/// What a `JsonRpcErrorFromJsonError` is.
pub enum JsonRpcErrorFromJsonErrorView {
    ExpectedObject,
    MalformedCode { source: JsonRpcErrorCodeFromJsonError },
    MissingCode,
    ExpectedStringForMessage,
    MissingMessage,
    UnrecognizedField { field: Seq<char> },
}

/// What an optional JSON value is.
pub open spec fn json_option_view(json: Option<JsonValue>) -> Option<JsonView> {
    match json {
        Some(json) => Some(json@),
        None => None,
    }
}

impl JsonRpcErrorView {
    /// The error as a JSON value: the code, the message, and the data if there is any.
    pub open spec fn to_json(self) -> JsonView {
        let fields = Map::<Seq<char>, JsonView>::empty().insert(
            "code"@,
            JsonView::Int(self.code as int),
        ).insert("message"@, JsonView::String(self.message));
        match self.data {
            Some(data) => JsonView::Object(fields.insert("data"@, data)),
            None => JsonView::Object(fields),
        }
    }
}

/// The error that a JSON value is. The code is looked at first, then the message, then whether
/// any field is left over.
pub open spec fn error_from_json(json: JsonView) -> Result<
    JsonRpcErrorView,
    JsonRpcErrorFromJsonErrorView,
> {
    match json {
        JsonView::Object(fields) => {
            let rest = fields.remove("code"@).remove("message"@).remove("data"@);
            if !fields.contains_key("code"@) {
                Err(JsonRpcErrorFromJsonErrorView::MissingCode)
            } else {
                match json_rpc_error_code::code_from_json(fields["code"@]) {
                    Err(source) => Err(JsonRpcErrorFromJsonErrorView::MalformedCode { source }),
                    Ok(code) => if !fields.contains_key("message"@) {
                        Err(JsonRpcErrorFromJsonErrorView::MissingMessage)
                    } else {
                        match fields["message"@] {
                            JsonView::String(message) => if rest != Map::<
                                Seq<char>,
                                JsonView,
                            >::empty() {
                                Err(
                                    JsonRpcErrorFromJsonErrorView::UnrecognizedField {
                                        field: json_value::first_name(rest),
                                    },
                                )
                            } else {
                                Ok(
                                    JsonRpcErrorView {
                                        code,
                                        message,
                                        data: if fields.contains_key("data"@) {
                                            Some(fields["data"@])
                                        } else {
                                            None
                                        },
                                    },
                                )
                            },
                            _ => Err(JsonRpcErrorFromJsonErrorView::ExpectedStringForMessage),
                        }
                    },
                }
            }
        },
        _ => Err(JsonRpcErrorFromJsonErrorView::ExpectedObject),
    }
}

/// What reading an error gave.
pub open spec fn error_read(read: Result<JsonRpcError, JsonRpcErrorFromJsonError>) -> Result<
    JsonRpcErrorView,
    JsonRpcErrorFromJsonErrorView,
> {
    match read {
        Ok(error) => Ok(error@),
        Err(error) => Err(error@),
    }
}

/// An error read back from the JSON value it is written as is the same error.
pub proof fn error_round_trip(error: JsonRpcErrorView)
    ensures
        error_from_json(error.to_json()) == Ok::<JsonRpcErrorView, JsonRpcErrorFromJsonErrorView>(
            error,
        ),
{
    crate::json_types::field_names_differ();
    let fields = error.to_json()->Object_0;
    assert(fields.remove("code"@).remove("message"@).remove("data"@) =~= Map::<
        Seq<char>,
        JsonView,
    >::empty());
}

/// A JSON value that is an error is the JSON value that the error is written as.
pub proof fn error_is_written_back(json: JsonView)
    requires
        error_from_json(json) is Ok,
    ensures
        error_from_json(json)->Ok_0.to_json() == json,
{
    crate::json_types::field_names_differ();
    let fields = json->Object_0;
    let written = error_from_json(json)->Ok_0.to_json()->Object_0;
    let rest = fields.remove("code"@).remove("message"@).remove("data"@);
    assert forall|name: Seq<char>| fields.contains_key(name) implies written.contains_key(name) by {
        assert(!rest.contains_key(name));
    }
    assert(written =~= fields);
}

/// An error is written with its code, its message, and its data exactly where it has any.
pub proof fn error_is_written_with_its_fields(error: JsonRpcErrorView, name: Seq<char>)
    ensures
        error.to_json() is Object,
        ({
            let fields = error.to_json()->Object_0;
            &&& fields.contains_key("code"@) && fields["code"@] == JsonView::Int(error.code as int)
            &&& fields.contains_key("message"@) && fields["message"@] == JsonView::String(
                error.message,
            )
            &&& fields.contains_key("data"@) <==> error.data is Some
            &&& error.data is Some ==> fields["data"@] == error.data->0
            &&& fields.contains_key(name) ==> name == "code"@ || name == "message"@ || name
                == "data"@
        }),
{
    crate::json_types::field_names_differ();
}

/// What is wrong with an error is what is told of it.
pub proof fn errors_are_refused_for_a_reason(json: JsonView)
    requires
        error_from_json(json) is Err,
    ensures
        match error_from_json(json)->Err_0 {
            JsonRpcErrorFromJsonErrorView::ExpectedObject => !(json is Object),
            JsonRpcErrorFromJsonErrorView::MissingCode => json is Object
                && !json->Object_0.contains_key("code"@),
            JsonRpcErrorFromJsonErrorView::MalformedCode { source } => json is Object
                && json->Object_0.contains_key("code"@) && json_rpc_error_code::code_from_json(
                json->Object_0["code"@],
            ) == Err::<i16, JsonRpcErrorCodeFromJsonError>(source),
            JsonRpcErrorFromJsonErrorView::MissingMessage => json is Object
                && !json->Object_0.contains_key("message"@),
            JsonRpcErrorFromJsonErrorView::ExpectedStringForMessage => json is Object
                && json->Object_0.contains_key("message"@) && !(json->Object_0["message"@] is String),
            JsonRpcErrorFromJsonErrorView::UnrecognizedField { field } => json is Object && (
            json->Object_0.dom().finite() ==> json_value::is_first_name(
                json->Object_0.remove("code"@).remove("message"@).remove("data"@),
                field,
            )),
        },
{
    if json is Object && json->Object_0.dom().finite() {
        let rest = json->Object_0.remove("code"@).remove("message"@).remove("data"@);
        if rest != Map::<Seq<char>, JsonView>::empty() {
            json_value::first_name_exists(rest);
        }
    }
}

/// The parts of an error are looked at in their order, and the first that is wrong is told: the code,
/// the message, and then any other field.
pub proof fn error_parts_are_looked_at_in_order(fields: Map<Seq<char>, JsonView>)
    ensures
        ({
            let read = error_from_json(JsonView::Object(fields));
            let code_wrong = !fields.contains_key("code"@) || json_rpc_error_code::code_from_json(
                fields["code"@],
            ) is Err;
            let message_wrong = !fields.contains_key("message"@)
                || !(fields["message"@] is String);
            let code_told = read matches Err(error) && (error is MissingCode
                || error is MalformedCode);
            let message_told = read matches Err(error) && (error is MissingMessage
                || error is ExpectedStringForMessage);
            &&& code_told <==> code_wrong
            &&& message_told <==> !code_wrong && message_wrong
        }),
{
}

impl JsonRpcError {
    /// What the error is.
    pub open spec fn view(&self) -> JsonRpcErrorView {
        JsonRpcErrorView {
            code: self.code@,
            message: self.message@,
            data: json_option_view(self.data),
        }
    }

    /// Writes the error as a JSON value.
    pub fn into_json(self) -> (json: JsonValue)
        ensures
            json@ == self@.to_json(),
    {
        let mut map = JsonMap::new();
        map.insert("code".to_owned(), JsonValue::from(self.code));
        map.insert("message".to_owned(), JsonValue::String(self.message));
        match self.data {
            Some(data) => {
                map.insert("data".to_owned(), data);
            },
            None => {},
        }
        JsonValue::Object(map)
    }
}

impl Clone for JsonRpcError {
    fn clone(&self) -> (copy: JsonRpcError)
        ensures
            copy@ == self@,
    {
        let data = match &self.data {
            Some(data) => Some(data.clone()),
            None => None,
        };
        JsonRpcError { code: self.code, message: self.message.clone(), data }
    }
}

impl From<JsonRpcError> for JsonValue {
    fn from(json_rpc_error: JsonRpcError) -> (json: JsonValue)
        ensures
            json@ == json_rpc_error@.to_json(),
    {
        json_rpc_error.into_json()
    }
}

impl vstd::std_specs::convert::FromSpecImpl<JsonRpcError> for JsonValue {
    open spec fn obeys_from_spec() -> bool {
        false
    }

    open spec fn from_spec(json_rpc_error: JsonRpcError) -> JsonValue {
        arbitrary()
    }
}

impl TryFrom<JsonValue> for JsonRpcError {
    type Error = JsonRpcErrorFromJsonError;

    fn try_from(json: JsonValue) -> (read: Result<JsonRpcError, JsonRpcErrorFromJsonError>)
        ensures
            error_read(read) == error_from_json(json@),
    {
        proof {
            crate::json_types::field_names_differ();
        }
        let mut map = match json {
            JsonValue::Object(map) => map,
            _ => return Err(JsonRpcErrorFromJsonError::ExpectedObject),
        };
        let code = match map.remove("code") {
            Some(code_json) => match JsonRpcErrorCode::try_from(code_json) {
                Ok(code) => code,
                Err(source) => {
                    return Err(JsonRpcErrorFromJsonError::MalformedCode { source });
                },
            },
            None => return Err(JsonRpcErrorFromJsonError::MissingCode),
        };
        let message = match map.remove("message") {
            Some(message_json) => match message_json {
                JsonValue::String(message) => message,
                _ => return Err(JsonRpcErrorFromJsonError::ExpectedStringForMessage),
            },
            None => return Err(JsonRpcErrorFromJsonError::MissingMessage),
        };
        let data = map.remove("data");
        match map.first_key() {
            Some(field) => Err(JsonRpcErrorFromJsonError::UnrecognizedField { field }),
            None => Ok(JsonRpcError { code, message, data }),
        }
    }
}

impl vstd::std_specs::convert::TryFromSpecImpl<JsonValue> for JsonRpcError {
    open spec fn obeys_try_from_spec() -> bool {
        false
    }

    open spec fn try_from_spec(json: JsonValue) -> Result<JsonRpcError, JsonRpcErrorFromJsonError> {
        arbitrary()
    }
}

impl JsonRpcErrorFromJsonErrorView {
    /// The error in words.
    pub open spec fn text(self) -> Seq<char> {
        match self {
            JsonRpcErrorFromJsonErrorView::ExpectedObject => "json-rpc-error must be json object"@,
            JsonRpcErrorFromJsonErrorView::MalformedCode { source } => "malformed error code: "@
                + source.text(),
            JsonRpcErrorFromJsonErrorView::MissingCode => "missing error code"@,
            JsonRpcErrorFromJsonErrorView::ExpectedStringForMessage =>
                "error message is not a string"@,
            JsonRpcErrorFromJsonErrorView::MissingMessage => "missing error message"@,
            JsonRpcErrorFromJsonErrorView::UnrecognizedField { field } => "unrecognized field '"@
                + field + "'"@,
        }
    }
}

impl JsonRpcErrorFromJsonError {
    /// What the error is.
    pub open spec fn view(&self) -> JsonRpcErrorFromJsonErrorView {
        match *self {
            JsonRpcErrorFromJsonError::ExpectedObject =>
                JsonRpcErrorFromJsonErrorView::ExpectedObject,
            JsonRpcErrorFromJsonError::MalformedCode { source } =>
                JsonRpcErrorFromJsonErrorView::MalformedCode { source },
            JsonRpcErrorFromJsonError::MissingCode => JsonRpcErrorFromJsonErrorView::MissingCode,
            JsonRpcErrorFromJsonError::ExpectedStringForMessage =>
                JsonRpcErrorFromJsonErrorView::ExpectedStringForMessage,
            JsonRpcErrorFromJsonError::MissingMessage =>
                JsonRpcErrorFromJsonErrorView::MissingMessage,
            JsonRpcErrorFromJsonError::UnrecognizedField { field } =>
                JsonRpcErrorFromJsonErrorView::UnrecognizedField { field: field@ },
        }
    }

    /// Says in words what is wrong.
    pub fn message(&self) -> (message: String)
        ensures
            message@ == self@.text(),
    {
        match self {
            JsonRpcErrorFromJsonError::ExpectedObject =>
                "json-rpc-error must be json object".to_owned(),
            JsonRpcErrorFromJsonError::MalformedCode { source } => join(
                "malformed error code: ",
                source.message().as_str(),
            ),
            JsonRpcErrorFromJsonError::MissingCode => "missing error code".to_owned(),
            JsonRpcErrorFromJsonError::ExpectedStringForMessage =>
                "error message is not a string".to_owned(),
            JsonRpcErrorFromJsonError::MissingMessage => "missing error message".to_owned(),
            JsonRpcErrorFromJsonError::UnrecognizedField { field } => join3(
                "unrecognized field '",
                field.as_str(),
                "'",
            ),
        }
    }
}

} // verus!
