use crate::json_types::json_rpc_error;
use crate::json_types::json_rpc_error::{JsonRpcErrorFromJsonErrorView, JsonRpcErrorView};
use crate::json_types::json_rpc_id;
use crate::json_types::json_rpc_id::JsonRpcIdView;
use crate::json_types::{JsonRpcError, JsonRpcErrorFromJsonError, JsonRpcId, JsonRpcIdFromJsonError};
use crate::json_value;
use crate::json_value::{JsonMap, JsonValue, JsonView};
use crate::text;
use crate::text::{join, join3, text_eq};
use crate::JSON_RPC_VERSION;
use vstd::prelude::*;

verus! {

/// The answer to a method call.
#[derive(Debug, PartialEq)]
pub struct JsonRpcResponse {
    pub id: JsonRpcId,
    pub result: Result<JsonValue, JsonRpcError>,
}

/// What a response is.
pub struct JsonRpcResponseView {
    pub id: JsonRpcIdView,
    pub result: Result<JsonView, JsonRpcErrorView>,
}

/// Why a JSON value is no response.
#[derive(Debug, PartialEq)]
#[allow(inconsistent_fields)]
pub enum JsonRpcResponseFromJsonError {
    ExpectedObject,
    MalformedId { source: JsonRpcIdFromJsonError },
    MissingId,
    UnrecognizedVersion { version: String, id: JsonRpcId },
    InvalidTypeForVersion { id: JsonRpcId },
    MissingVersion { id: JsonRpcId },
    MalformedErrorField { source: JsonRpcErrorFromJsonError, id: JsonRpcId },
    MissingResultAndError { id: JsonRpcId },
    UnrecognizedField { field: String, id: JsonRpcId },
}

/// What a `JsonRpcResponseFromJsonError` is.
#[allow(inconsistent_fields)]
pub enum JsonRpcResponseFromJsonErrorView {
    ExpectedObject,
    MalformedId { source: JsonRpcIdFromJsonError },
    MissingId,
    UnrecognizedVersion { version: Seq<char>, id: JsonRpcIdView },
    InvalidTypeForVersion { id: JsonRpcIdView },
    MissingVersion { id: JsonRpcIdView },
    MalformedErrorField { source: JsonRpcErrorFromJsonErrorView, id: JsonRpcIdView },
    MissingResultAndError { id: JsonRpcIdView },
    UnrecognizedField { field: Seq<char>, id: JsonRpcIdView },
}

/// What the outcome of a method call is.
pub open spec fn result_view(result: Result<JsonValue, JsonRpcError>) -> Result<
    JsonView,
    JsonRpcErrorView,
> {
    match result {
        Ok(value) => Ok(value@),
        Err(error) => Err(error@),
    }
}

/// What an optional response is.
pub open spec fn response_option_view(response: Option<JsonRpcResponse>) -> Option<
    JsonRpcResponseView,
> {
    match response {
        Some(response) => Some(response@),
        None => None,
    }
}

impl JsonRpcResponseView {
    /// The response as a JSON value: the version, the id, and the result or else the error.
    pub open spec fn to_json(self) -> JsonView {
        let fields = Map::<Seq<char>, JsonView>::empty().insert(
            "jsonrpc"@,
            JsonView::String(JSON_RPC_VERSION@),
        ).insert("id"@, self.id.to_json());
        match self.result {
            Ok(value) => JsonView::Object(fields.insert("result"@, value)),
            Err(error) => JsonView::Object(fields.insert("error"@, error.to_json())),
        }
    }
}

/// The response that an object with the given fields is. The id is looked at first, then the
/// version, the result or else the error, and last whether any field is left over: an error
/// beside a result is left over.
pub open spec fn response_from_fields(fields: Map<Seq<char>, JsonView>) -> Result<
    JsonRpcResponseView,
    JsonRpcResponseFromJsonErrorView,
> {
    if !fields.contains_key("id"@) {
        Err(JsonRpcResponseFromJsonErrorView::MissingId)
    } else {
        match json_rpc_id::id_from_json(fields["id"@]) {
            Err(source) => Err(JsonRpcResponseFromJsonErrorView::MalformedId { source }),
            Ok(id) => if !fields.contains_key("jsonrpc"@) {
                Err(JsonRpcResponseFromJsonErrorView::MissingVersion { id })
            } else if !(fields["jsonrpc"@] is String) {
                Err(JsonRpcResponseFromJsonErrorView::InvalidTypeForVersion { id })
            } else if fields["jsonrpc"@]->String_0 != JSON_RPC_VERSION@ {
                Err(
                    JsonRpcResponseFromJsonErrorView::UnrecognizedVersion {
                        version: fields["jsonrpc"@]->String_0,
                        id,
                    },
                )
            } else if fields.contains_key("result"@) {
                response_without_rest(
                    JsonRpcResponseView { id, result: Ok(fields["result"@]) },
                    fields.remove("id"@).remove("jsonrpc"@).remove("result"@),
                )
            } else if fields.contains_key("error"@) {
                match json_rpc_error::error_from_json(fields["error"@]) {
                    Err(source) => Err(
                        JsonRpcResponseFromJsonErrorView::MalformedErrorField { source, id },
                    ),
                    Ok(error) => response_without_rest(
                        JsonRpcResponseView { id, result: Err(error) },
                        fields.remove("id"@).remove("jsonrpc"@).remove("error"@),
                    ),
                }
            } else {
                Err(JsonRpcResponseFromJsonErrorView::MissingResultAndError { id })
            },
        }
    }
}

/// The response, provided that no field is left over.
pub open spec fn response_without_rest(
    response: JsonRpcResponseView,
    rest: Map<Seq<char>, JsonView>,
) -> Result<JsonRpcResponseView, JsonRpcResponseFromJsonErrorView> {
    if rest == Map::<Seq<char>, JsonView>::empty() {
        Ok(response)
    } else {
        Err(
            JsonRpcResponseFromJsonErrorView::UnrecognizedField {
                field: json_value::first_name(rest),
                id: response.id,
            },
        )
    }
}

/// The response that a JSON value is.
pub open spec fn response_from_json(json: JsonView) -> Result<
    JsonRpcResponseView,
    JsonRpcResponseFromJsonErrorView,
> {
    match json {
        JsonView::Object(fields) => response_from_fields(fields),
        _ => Err(JsonRpcResponseFromJsonErrorView::ExpectedObject),
    }
}

/// What reading a response gave.
pub open spec fn response_read(read: Result<JsonRpcResponse, JsonRpcResponseFromJsonError>) -> Result<
    JsonRpcResponseView,
    JsonRpcResponseFromJsonErrorView,
> {
    match read {
        Ok(value) => Ok(value@),
        Err(error) => Err(error@),
    }
}

/// A response read back from the JSON value it is written as is the same response.
pub proof fn response_round_trip(response: JsonRpcResponseView)
    ensures
        response_from_json(response.to_json()) == Ok::<
            JsonRpcResponseView,
            JsonRpcResponseFromJsonErrorView,
        >(response),
{
    crate::json_types::field_names_differ();
    json_rpc_id::id_round_trip(response.id);
    let fields = response.to_json()->Object_0;
    let shared = fields.remove("id"@).remove("jsonrpc"@);
    match response.result {
        Ok(_) => {
            assert(shared.remove("result"@) =~= Map::<Seq<char>, JsonView>::empty());
        },
        Err(error) => {
            json_rpc_error::error_round_trip(error);
            assert(shared.remove("error"@) =~= Map::<Seq<char>, JsonView>::empty());
        },
    }
}

/// A JSON value that is a response is the JSON value that the response is written as.
pub proof fn response_is_written_back(json: JsonView)
    requires
        response_from_json(json) is Ok,
    ensures
        response_from_json(json)->Ok_0.to_json() == json,
{
    crate::json_types::field_names_differ();
    let fields = json->Object_0;
    let written = response_from_json(json)->Ok_0.to_json()->Object_0;
    let outcome = if fields.contains_key("result"@) {
        "result"@
    } else {
        json_rpc_error::error_is_written_back(fields["error"@]);
        "error"@
    };
    let rest = fields.remove("id"@).remove("jsonrpc"@).remove(outcome);
    assert forall|name: Seq<char>| fields.contains_key(name) implies written.contains_key(name) by {
        assert(!rest.contains_key(name));
    }
    assert(written =~= fields);
}

/// A response is written with the version, its id, and its result or else its error.
pub proof fn response_is_written_with_its_fields(response: JsonRpcResponseView, name: Seq<char>)
    ensures
        response.to_json() is Object,
        ({
            let fields = response.to_json()->Object_0;
            &&& fields.contains_key("jsonrpc"@) && fields["jsonrpc"@] == JsonView::String("2.0"@)
            &&& fields.contains_key("id"@) && fields["id"@] == response.id.to_json()
            &&& fields.contains_key("result"@) <==> response.result is Ok
            &&& response.result is Ok ==> fields["result"@] == response.result->Ok_0
            &&& fields.contains_key("error"@) <==> response.result is Err
            &&& response.result is Err ==> fields["error"@] == response.result->Err_0.to_json()
            &&& fields.contains_key(name) ==> name == "jsonrpc"@ || name == "id"@ || name
                == "result"@ || name == "error"@
        }),
{
    crate::json_types::field_names_differ();
}

/// What is wrong with a response is what is told of it.
pub proof fn responses_are_refused_for_a_reason(json: JsonView)
    requires
        response_from_json(json) is Err,
    ensures
        !(json is Object) <==> response_from_json(json)->Err_0 is ExpectedObject,
        json is Object ==> {
            let fields = json->Object_0;
            match response_from_json(json)->Err_0 {
                JsonRpcResponseFromJsonErrorView::ExpectedObject => false,
                JsonRpcResponseFromJsonErrorView::MissingId => !fields.contains_key("id"@),
                JsonRpcResponseFromJsonErrorView::MalformedId { source } => fields.contains_key("id"@)
                    && json_rpc_id::id_from_json(fields["id"@]) == Err::<
                    JsonRpcIdView,
                    JsonRpcIdFromJsonError,
                >(source),
                JsonRpcResponseFromJsonErrorView::UnrecognizedVersion { version, .. } => {
                    &&& fields.contains_key("jsonrpc"@)
                    &&& fields["jsonrpc"@] == JsonView::String(version)
                    &&& version != "2.0"@
                },
                JsonRpcResponseFromJsonErrorView::InvalidTypeForVersion { .. } =>
                    fields.contains_key("jsonrpc"@) && !(fields["jsonrpc"@] is String),
                JsonRpcResponseFromJsonErrorView::MissingVersion { .. } =>
                    !fields.contains_key("jsonrpc"@),
                JsonRpcResponseFromJsonErrorView::MalformedErrorField { source, .. } =>
                    fields.contains_key("error"@) && json_rpc_error::error_from_json(
                        fields["error"@],
                    ) == Err::<JsonRpcErrorView, JsonRpcErrorFromJsonErrorView>(source),
                JsonRpcResponseFromJsonErrorView::MissingResultAndError { .. } =>
                    !fields.contains_key("result"@) && !fields.contains_key("error"@),
                JsonRpcResponseFromJsonErrorView::UnrecognizedField { field, .. } =>
                    fields.dom().finite() ==> fields.contains_key(field) && field != "id"@ && field
                        != "jsonrpc"@ && field != "result"@,
            }
        },
{
    if json is Object && json->Object_0.dom().finite() {
        let fields = json->Object_0;
        let outcome = if fields.contains_key("result"@) {
            "result"@
        } else {
            "error"@
        };
        let rest = fields.remove("id"@).remove("jsonrpc"@).remove(outcome);
        if rest != Map::<Seq<char>, JsonView>::empty() {
            json_value::first_name_exists(rest);
        }
    }
}

/// The parts of a response are looked at in their order, and the first that is wrong is told: the id,
/// the version, the result or else the error, and then any other field. An error beside a result is
/// such a field.
pub proof fn response_parts_are_looked_at_in_order(fields: Map<Seq<char>, JsonView>)
    ensures
        ({
            let read = response_from_json(JsonView::Object(fields));
            let id_wrong = fields.contains_key("id"@) && json_rpc_id::id_from_json(
                fields["id"@],
            ) is Err;
            let version_wrong = !fields.contains_key("jsonrpc"@) || fields["jsonrpc"@]
                != JsonView::String("2.0"@);
            let looked_at = fields.contains_key("id"@) && !id_wrong && !version_wrong;
            let version_told = read matches Err(error) && (error is MissingVersion
                || error is InvalidTypeForVersion || error is UnrecognizedVersion);
            &&& (read matches Err(error) && error is MissingId) <==> !fields.contains_key("id"@)
            &&& (read matches Err(error) && error is MalformedId) <==> id_wrong
            &&& version_told <==> fields.contains_key("id"@) && !id_wrong && version_wrong
            &&& (read matches Err(error) && error is MissingResultAndError) <==> looked_at
                && !fields.contains_key("result"@) && !fields.contains_key("error"@)
            &&& (read matches Err(error) && error is MalformedErrorField) <==> looked_at
                && !fields.contains_key("result"@) && fields.contains_key("error"@)
                && json_rpc_error::error_from_json(fields["error"@]) is Err
            &&& looked_at && fields.contains_key("result"@) && fields.contains_key("error"@) ==> (
            read matches Err(error) && error is UnrecognizedField)
        }),
{
    crate::json_types::field_names_differ();
    let rest = fields.remove("id"@).remove("jsonrpc"@).remove("result"@);
    if fields.contains_key("error"@) {
        assert(rest.contains_key("error"@));
    }
}

/// What is said of a response names what is wrong with it.
pub proof fn response_error_tells_its_cause(error: JsonRpcResponseFromJsonErrorView)
    ensures
        error matches JsonRpcResponseFromJsonErrorView::MalformedId { source } ==> text::ends_with(
            error.text(),
            source.text(),
        ),
        error matches JsonRpcResponseFromJsonErrorView::UnrecognizedVersion { version, .. }
            ==> text::holds(error.text(), version),
        error matches JsonRpcResponseFromJsonErrorView::MalformedErrorField { source, .. }
            ==> text::ends_with(error.text(), source.text()),
        error matches JsonRpcResponseFromJsonErrorView::UnrecognizedField { field, .. }
            ==> text::holds(error.text(), field),
{
    match error {
        JsonRpcResponseFromJsonErrorView::MalformedId { source } => {
            text::what_is_put_behind_ends_it("malformed response id: "@, source.text());
        },
        JsonRpcResponseFromJsonErrorView::UnrecognizedVersion { version, .. } => {
            text::what_is_put_between_stands_there(
                "unrecognized json-rpc protocol version ("@,
                version,
                ")"@,
            );
        },
        JsonRpcResponseFromJsonErrorView::MalformedErrorField { source, .. } => {
            text::what_is_put_behind_ends_it("malformed error field: "@, source.text());
        },
        JsonRpcResponseFromJsonErrorView::UnrecognizedField { field, .. } => {
            text::what_is_put_between_stands_there("unrecognized response field '"@, field, "'"@);
        },
        _ => {},
    }
}

impl JsonRpcResponse {
    /// What the response is.
    pub open spec fn view(&self) -> JsonRpcResponseView {
        JsonRpcResponseView { id: self.id@, result: result_view(self.result) }
    }

    /// Writes the response as a JSON value.
    pub fn into_json(self) -> (json: JsonValue)
        ensures
            json@ == self@.to_json(),
    {
        let mut map = JsonMap::new();
        map.insert("jsonrpc".to_owned(), JsonValue::from_text(JSON_RPC_VERSION));
        map.insert("id".to_owned(), JsonValue::from(self.id));
        match self.result {
            Ok(value) => {
                map.insert("result".to_owned(), value);
            },
            Err(error) => {
                map.insert("error".to_owned(), JsonValue::from(error));
            },
        }
        JsonValue::Object(map)
    }
}

impl Clone for JsonRpcResponse {
    fn clone(&self) -> (copy: JsonRpcResponse)
        ensures
            copy@ == self@,
    {
        let result = match &self.result {
            Ok(value) => Ok(value.clone()),
            Err(error) => Err(error.clone()),
        };
        JsonRpcResponse { id: self.id.clone(), result }
    }
}

impl From<JsonRpcResponse> for JsonValue {
    fn from(json_rpc_response: JsonRpcResponse) -> (json: JsonValue)
        ensures
            json@ == json_rpc_response@.to_json(),
    {
        json_rpc_response.into_json()
    }
}

impl vstd::std_specs::convert::FromSpecImpl<JsonRpcResponse> for JsonValue {
    open spec fn obeys_from_spec() -> bool {
        false
    }

    open spec fn from_spec(json_rpc_response: JsonRpcResponse) -> JsonValue {
        arbitrary()
    }
}

impl TryFrom<JsonValue> for JsonRpcResponse {
    type Error = JsonRpcResponseFromJsonError;

    fn try_from(json: JsonValue) -> (read: Result<JsonRpcResponse, JsonRpcResponseFromJsonError>)
        ensures
            response_read(read) == response_from_json(json@),
    {
        proof {
            crate::json_types::field_names_differ();
        }
        let mut map = match json {
            JsonValue::Object(map) => map,
            _ => return Err(JsonRpcResponseFromJsonError::ExpectedObject),
        };
        let id = match map.remove("id") {
            Some(id_json) => match JsonRpcId::try_from(id_json) {
                Ok(id) => id,
                Err(source) => {
                    return Err(JsonRpcResponseFromJsonError::MalformedId { source });
                },
            },
            None => return Err(JsonRpcResponseFromJsonError::MissingId),
        };
        match map.remove("jsonrpc") {
            Some(jsonrpc_json) => match jsonrpc_json {
                JsonValue::String(version) => {
                    if !text_eq(version.as_str(), JSON_RPC_VERSION) {
                        return Err(
                            JsonRpcResponseFromJsonError::UnrecognizedVersion { version, id },
                        );
                    }
                },
                _ => {
                    return Err(JsonRpcResponseFromJsonError::InvalidTypeForVersion { id });
                },
            },
            None => return Err(JsonRpcResponseFromJsonError::MissingVersion { id }),
        }
        let ghost with_outcome = map@;
        let result = match map.remove("result") {
            Some(result_json) => Ok(result_json),
            None => {
                assert(map@ =~= with_outcome);
                match map.remove("error") {
                    Some(error_json) => match JsonRpcError::try_from(error_json) {
                        Ok(error) => Err(error),
                        Err(source) => {
                            return Err(
                                JsonRpcResponseFromJsonError::MalformedErrorField { source, id },
                            );
                        },
                    },
                    None => return Err(JsonRpcResponseFromJsonError::MissingResultAndError { id }),
                }
            },
        };
        match map.first_key() {
            Some(field) => Err(JsonRpcResponseFromJsonError::UnrecognizedField { field, id }),
            None => Ok(JsonRpcResponse { id, result }),
        }
    }
}

impl vstd::std_specs::convert::TryFromSpecImpl<JsonValue> for JsonRpcResponse {
    open spec fn obeys_try_from_spec() -> bool {
        false
    }

    open spec fn try_from_spec(json: JsonValue) -> Result<JsonRpcResponse, JsonRpcResponseFromJsonError> {
        arbitrary()
    }
}

impl JsonRpcResponseFromJsonErrorView {
    /// The error in words.
    pub open spec fn text(self) -> Seq<char> {
        match self {
            JsonRpcResponseFromJsonErrorView::ExpectedObject =>
                "json-rpc response must be a json object"@,
            JsonRpcResponseFromJsonErrorView::MalformedId { source } =>
                "malformed response id: "@ + source.text(),
            JsonRpcResponseFromJsonErrorView::MissingId => "missing response id"@,
            JsonRpcResponseFromJsonErrorView::UnrecognizedVersion { version, .. } =>
                "unrecognized json-rpc protocol version ("@ + version + ")"@,
            JsonRpcResponseFromJsonErrorView::InvalidTypeForVersion { .. } =>
                "jsonrpc version field must be a string"@,
            JsonRpcResponseFromJsonErrorView::MissingVersion { .. } =>
                "missing jsonrpc version field"@,
            JsonRpcResponseFromJsonErrorView::MalformedErrorField { source, .. } =>
                "malformed error field: "@ + source.text(),
            JsonRpcResponseFromJsonErrorView::MissingResultAndError { .. } =>
                "response missing result/error field"@,
            JsonRpcResponseFromJsonErrorView::UnrecognizedField { field, .. } =>
                "unrecognized response field '"@ + field + "'"@,
        }
    }
}

impl JsonRpcResponseFromJsonError {
    /// What the error is.
    pub open spec fn view(&self) -> JsonRpcResponseFromJsonErrorView {
        match *self {
            JsonRpcResponseFromJsonError::ExpectedObject =>
                JsonRpcResponseFromJsonErrorView::ExpectedObject,
            JsonRpcResponseFromJsonError::MalformedId { source } =>
                JsonRpcResponseFromJsonErrorView::MalformedId {
                    source,
                },
            JsonRpcResponseFromJsonError::MissingId => JsonRpcResponseFromJsonErrorView::MissingId,
            JsonRpcResponseFromJsonError::UnrecognizedVersion { version, id } =>
                JsonRpcResponseFromJsonErrorView::UnrecognizedVersion {
                    version: version@,
                    id: id@,
                },
            JsonRpcResponseFromJsonError::InvalidTypeForVersion { id } =>
                JsonRpcResponseFromJsonErrorView::InvalidTypeForVersion {
                    id: id@,
                },
            JsonRpcResponseFromJsonError::MissingVersion { id } =>
                JsonRpcResponseFromJsonErrorView::MissingVersion {
                    id: id@,
                },
            JsonRpcResponseFromJsonError::MalformedErrorField { source, id } =>
                JsonRpcResponseFromJsonErrorView::MalformedErrorField {
                    source: source@,
                    id: id@,
                },
            JsonRpcResponseFromJsonError::MissingResultAndError { id } =>
                JsonRpcResponseFromJsonErrorView::MissingResultAndError {
                    id: id@,
                },
            JsonRpcResponseFromJsonError::UnrecognizedField { field, id } =>
                JsonRpcResponseFromJsonErrorView::UnrecognizedField {
                    field: field@,
                    id: id@,
                },
        }
    }

    /// Says in words what is wrong.
    pub fn message(&self) -> (message: String)
        ensures
            message@ == self@.text(),
    {
        match self {
            JsonRpcResponseFromJsonError::ExpectedObject =>
                "json-rpc response must be a json object".to_owned(),
            JsonRpcResponseFromJsonError::MalformedId { source } => join(
                "malformed response id: ",
                source.message().as_str(),
            ),
            JsonRpcResponseFromJsonError::MissingId => "missing response id".to_owned(),
            JsonRpcResponseFromJsonError::UnrecognizedVersion { version, .. } => join3(
                "unrecognized json-rpc protocol version (",
                version.as_str(),
                ")",
            ),
            JsonRpcResponseFromJsonError::InvalidTypeForVersion { .. } =>
                "jsonrpc version field must be a string".to_owned(),
            JsonRpcResponseFromJsonError::MissingVersion { .. } =>
                "missing jsonrpc version field".to_owned(),
            JsonRpcResponseFromJsonError::MalformedErrorField { source, .. } => join(
                "malformed error field: ",
                source.message().as_str(),
            ),
            JsonRpcResponseFromJsonError::MissingResultAndError { .. } =>
                "response missing result/error field".to_owned(),
            JsonRpcResponseFromJsonError::UnrecognizedField { field, .. } => join3(
                "unrecognized response field '",
                field.as_str(),
                "'",
            ),
        }
    }
}

} // verus!
