use crate::error_codes;
use crate::json_types::json_rpc_error::JsonRpcErrorView;
use crate::json_types::json_rpc_id;
use crate::json_types::json_rpc_id::JsonRpcIdView;
use crate::json_types::json_rpc_params;
use crate::json_types::json_rpc_params::JsonRpcParamsView;
use crate::json_types::json_rpc_response::JsonRpcResponseView;
use crate::json_types::{
    JsonRpcError, JsonRpcErrorCode, JsonRpcId, JsonRpcIdFromJsonError, JsonRpcParams,
    JsonRpcParamsFromJsonError, JsonRpcResponse,
};
use crate::json_value;
use crate::json_value::{JsonMap, JsonValue, JsonView};
use crate::text;
use crate::text::{join, join3, text_eq};
use crate::JSON_RPC_VERSION;
use vstd::prelude::*;

verus! {

/// A request: a method call if it has an id, a notification if it has none.
#[derive(Debug, PartialEq)]
pub struct JsonRpcRequest {
    pub method: String,
    pub params: Option<JsonRpcParams>,
    pub id: Option<JsonRpcId>,
}

/// What a request is.
pub struct JsonRpcRequestView {
    pub method: Seq<char>,
    pub params: Option<JsonRpcParamsView>,
    pub id: Option<JsonRpcIdView>,
}

/// Why a JSON value is no request.
#[derive(Debug, PartialEq)]
#[allow(inconsistent_fields)]
pub enum JsonRpcRequestFromJsonError {
    InvalidJsonType,
    MalformedId { source: JsonRpcIdFromJsonError },
    UnrecognizedVersion { version: String, id: Option<JsonRpcId> },
    InvalidTypeForVersion { id: Option<JsonRpcId> },
    MissingVersion { id: Option<JsonRpcId> },
    InvalidTypeForMethod { id: Option<JsonRpcId> },
    MissingMethod { id: Option<JsonRpcId> },
    MalformedParams { source: JsonRpcParamsFromJsonError, id: Option<JsonRpcId> },
    UnrecognizedField { field: String, id: Option<JsonRpcId> },
}

/// What a `JsonRpcRequestFromJsonError` is.
#[allow(inconsistent_fields)]
pub enum JsonRpcRequestFromJsonErrorView {
    InvalidJsonType,
    MalformedId { source: JsonRpcIdFromJsonError },
    UnrecognizedVersion { version: Seq<char>, id: Option<JsonRpcIdView> },
    InvalidTypeForVersion { id: Option<JsonRpcIdView> },
    MissingVersion { id: Option<JsonRpcIdView> },
    InvalidTypeForMethod { id: Option<JsonRpcIdView> },
    MissingMethod { id: Option<JsonRpcIdView> },
    MalformedParams { source: JsonRpcParamsFromJsonError, id: Option<JsonRpcIdView> },
    UnrecognizedField { field: Seq<char>, id: Option<JsonRpcIdView> },
}

/// `fields` with one more field, if there is a value for it.
pub open spec fn with_field(
    fields: Map<Seq<char>, JsonView>,
    name: Seq<char>,
    value: Option<JsonView>,
) -> Map<Seq<char>, JsonView> {
    match value {
        Some(value) => fields.insert(name, value),
        None => fields,
    }
}

impl JsonRpcRequestView {
    /// The request as a JSON value: the version and the method, then the parameters and the id
    /// as far as there are any.
    pub open spec fn to_json(self) -> JsonView {
        let fields = Map::<Seq<char>, JsonView>::empty().insert(
            "jsonrpc"@,
            JsonView::String(JSON_RPC_VERSION@),
        ).insert("method"@, JsonView::String(self.method));
        let params = match self.params {
            Some(params) => Some(params.to_json()),
            None => None,
        };
        let id = match self.id {
            Some(id) => Some(id.to_json()),
            None => None,
        };
        JsonView::Object(with_field(with_field(fields, "params"@, params), "id"@, id))
    }
}

/// The id among the fields of a request.
pub open spec fn id_field(fields: Map<Seq<char>, JsonView>) -> Result<
    Option<JsonRpcIdView>,
    JsonRpcIdFromJsonError,
> {
    if fields.contains_key("id"@) {
        match json_rpc_id::id_from_json(fields["id"@]) {
            Ok(id) => Ok(Some(id)),
            Err(error) => Err(error),
        }
    } else {
        Ok(None)
    }
}

/// The parameters among the fields of a request.
pub open spec fn params_field(fields: Map<Seq<char>, JsonView>) -> Result<
    Option<JsonRpcParamsView>,
    JsonRpcParamsFromJsonError,
> {
    if fields.contains_key("params"@) {
        match json_rpc_params::params_from_json(fields["params"@]) {
            Ok(params) => Ok(Some(params)),
            Err(error) => Err(error),
        }
    } else {
        Ok(None)
    }
}

/// The request that an object with the given fields is. The id is looked at first, then the
/// version, the method, the parameters, and last whether any field is left over.
pub open spec fn request_from_fields(fields: Map<Seq<char>, JsonView>) -> Result<
    JsonRpcRequestView,
    JsonRpcRequestFromJsonErrorView,
> {
    let rest = fields.remove("id"@).remove("jsonrpc"@).remove("method"@).remove("params"@);
    match id_field(fields) {
        Err(source) => Err(JsonRpcRequestFromJsonErrorView::MalformedId { source }),
        Ok(id) => if !fields.contains_key("jsonrpc"@) {
            Err(JsonRpcRequestFromJsonErrorView::MissingVersion { id })
        } else if !(fields["jsonrpc"@] is String) {
            Err(JsonRpcRequestFromJsonErrorView::InvalidTypeForVersion { id })
        } else if fields["jsonrpc"@]->String_0 != JSON_RPC_VERSION@ {
            Err(
                JsonRpcRequestFromJsonErrorView::UnrecognizedVersion {
                    version: fields["jsonrpc"@]->String_0,
                    id,
                },
            )
        } else if !fields.contains_key("method"@) {
            Err(JsonRpcRequestFromJsonErrorView::MissingMethod { id })
        } else if !(fields["method"@] is String) {
            Err(JsonRpcRequestFromJsonErrorView::InvalidTypeForMethod { id })
        } else {
            match params_field(fields) {
                Err(source) => Err(JsonRpcRequestFromJsonErrorView::MalformedParams { source, id }),
                Ok(params) => if rest != Map::<Seq<char>, JsonView>::empty() {
                    Err(
                        JsonRpcRequestFromJsonErrorView::UnrecognizedField {
                            field: json_value::first_name(rest),
                            id,
                        },
                    )
                } else {
                    Ok(JsonRpcRequestView { method: fields["method"@]->String_0, params, id })
                },
            }
        },
    }
}

/// The request that a JSON value is.
pub open spec fn request_from_json(json: JsonView) -> Result<
    JsonRpcRequestView,
    JsonRpcRequestFromJsonErrorView,
> {
    match json {
        JsonView::Object(fields) => request_from_fields(fields),
        _ => Err(JsonRpcRequestFromJsonErrorView::InvalidJsonType),
    }
}

/// What reading a request gave.
pub open spec fn request_read(read: Result<JsonRpcRequest, JsonRpcRequestFromJsonError>) -> Result<
    JsonRpcRequestView,
    JsonRpcRequestFromJsonErrorView,
> {
    match read {
        Ok(value) => Ok(value@),
        Err(error) => Err(error@),
    }
}

/// A request read back from the JSON value it is written as is the same request.
pub proof fn request_round_trip(request: JsonRpcRequestView)
    ensures
        request_from_json(request.to_json()) == Ok::<
            JsonRpcRequestView,
            JsonRpcRequestFromJsonErrorView,
        >(request),
{
    crate::json_types::field_names_differ();
    let fields = request.to_json()->Object_0;
    assert(fields.remove("id"@).remove("jsonrpc"@).remove("method"@).remove("params"@) =~= Map::<
        Seq<char>,
        JsonView,
    >::empty());
    if request.id is Some {
        json_rpc_id::id_round_trip(request.id->0);
    }
}

/// A JSON value that is a request is the JSON value that the request is written as.
pub proof fn request_is_written_back(json: JsonView)
    requires
        request_from_json(json) is Ok,
    ensures
        request_from_json(json)->Ok_0.to_json() == json,
{
    crate::json_types::field_names_differ();
    let fields = json->Object_0;
    let written = request_from_json(json)->Ok_0.to_json()->Object_0;
    let rest = fields.remove("id"@).remove("jsonrpc"@).remove("method"@).remove("params"@);
    assert forall|name: Seq<char>| fields.contains_key(name) implies written.contains_key(name) by {
        assert(!rest.contains_key(name));
    }
    assert(written =~= fields);
}

/// A request is written with the version, its method, and its parameters and its id exactly where it
/// has any.
pub proof fn request_is_written_with_its_fields(request: JsonRpcRequestView, name: Seq<char>)
    ensures
        request.to_json() is Object,
        ({
            let fields = request.to_json()->Object_0;
            &&& fields.contains_key("jsonrpc"@) && fields["jsonrpc"@] == JsonView::String("2.0"@)
            &&& fields.contains_key("method"@) && fields["method"@] == JsonView::String(
                request.method,
            )
            &&& fields.contains_key("params"@) <==> request.params is Some
            &&& request.params is Some ==> fields["params"@] == request.params->0.to_json()
            &&& fields.contains_key("id"@) <==> request.id is Some
            &&& request.id is Some ==> fields["id"@] == request.id->0.to_json()
            &&& fields.contains_key(name) ==> name == "jsonrpc"@ || name == "method"@ || name
                == "params"@ || name == "id"@
        }),
{
    crate::json_types::field_names_differ();
}

/// A request that is refused keeps its id where that could be read.
pub proof fn refused_request_keeps_its_id(json: JsonView)
    requires
        request_from_json(json) is Err,
    ensures
        request_from_json(json)->Err_0.id() == if json is Object && json->Object_0.contains_key("id"@)
            && json_rpc_id::id_from_json(json->Object_0["id"@]) is Ok {
            Some(json_rpc_id::id_from_json(json->Object_0["id"@])->Ok_0)
        } else {
            None
        },
        request_from_json(json)->Err_0.error_response().id == match request_from_json(
            json,
        )->Err_0.id() {
            Some(id) => id,
            None => JsonRpcIdView::Null,
        },
        request_from_json(json)->Err_0.error_response().result is Err,
        request_from_json(json)->Err_0.error_response().result->Err_0.code == -32600,
        request_from_json(json)->Err_0.error_response().result->Err_0.message == request_from_json(
            json,
        )->Err_0.text(),
        request_from_json(json)->Err_0.error_response().result->Err_0.data is None,
{
}

/// What is wrong with a request is what is told of it.
pub proof fn requests_are_refused_for_a_reason(json: JsonView)
    requires
        request_from_json(json) is Err,
    ensures
        !(json is Object) <==> request_from_json(json)->Err_0 is InvalidJsonType,
        json is Object ==> {
            let fields = json->Object_0;
            match request_from_json(json)->Err_0 {
                JsonRpcRequestFromJsonErrorView::InvalidJsonType => false,
                JsonRpcRequestFromJsonErrorView::MalformedId { source } => fields.contains_key("id"@)
                    && json_rpc_id::id_from_json(fields["id"@]) == Err::<
                    JsonRpcIdView,
                    JsonRpcIdFromJsonError,
                >(source),
                JsonRpcRequestFromJsonErrorView::UnrecognizedVersion { version, .. } => {
                    &&& fields.contains_key("jsonrpc"@)
                    &&& fields["jsonrpc"@] == JsonView::String(version)
                    &&& version != "2.0"@
                },
                JsonRpcRequestFromJsonErrorView::InvalidTypeForVersion { .. } =>
                    fields.contains_key("jsonrpc"@) && !(fields["jsonrpc"@] is String),
                JsonRpcRequestFromJsonErrorView::MissingVersion { .. } =>
                    !fields.contains_key("jsonrpc"@),
                JsonRpcRequestFromJsonErrorView::InvalidTypeForMethod { .. } =>
                    fields.contains_key("method"@) && !(fields["method"@] is String),
                JsonRpcRequestFromJsonErrorView::MissingMethod { .. } =>
                    !fields.contains_key("method"@),
                JsonRpcRequestFromJsonErrorView::MalformedParams { .. } =>
                    fields.contains_key("params"@) && !(fields["params"@] is Array)
                        && !(fields["params"@] is Object),
                JsonRpcRequestFromJsonErrorView::UnrecognizedField { field, .. } =>
                    fields.dom().finite() ==> json_value::is_first_name(
                        fields.remove("id"@).remove("jsonrpc"@).remove("method"@).remove("params"@),
                        field,
                    ),
            }
        },
{
    if json is Object && json->Object_0.dom().finite() {
        let rest = json->Object_0.remove("id"@).remove("jsonrpc"@).remove("method"@).remove(
            "params"@,
        );
        if rest != Map::<Seq<char>, JsonView>::empty() {
            json_value::first_name_exists(rest);
        }
    }
}

/// The parts of a request are looked at in their order, and the first that is wrong is told: the id,
/// the version, the method, the parameters, and then any other field.
pub proof fn request_parts_are_looked_at_in_order(fields: Map<Seq<char>, JsonView>)
    ensures
        ({
            let read = request_from_json(JsonView::Object(fields));
            let id_wrong = fields.contains_key("id"@) && json_rpc_id::id_from_json(
                fields["id"@],
            ) is Err;
            let version_wrong = !fields.contains_key("jsonrpc"@) || fields["jsonrpc"@]
                != JsonView::String("2.0"@);
            let method_wrong = !fields.contains_key("method"@) || !(fields["method"@] is String);
            let params_wrong = fields.contains_key("params"@) && !(fields["params"@] is Array)
                && !(fields["params"@] is Object);
            let version_told = read matches Err(error) && (error is MissingVersion
                || error is InvalidTypeForVersion || error is UnrecognizedVersion);
            let method_told = read matches Err(error) && (error is MissingMethod
                || error is InvalidTypeForMethod);
            &&& (read matches Err(error) && error is MalformedId) <==> id_wrong
            &&& version_told <==> !id_wrong && version_wrong
            &&& method_told <==> !id_wrong && !version_wrong && method_wrong
            &&& (read matches Err(error) && error is MalformedParams) <==> !id_wrong
                && !version_wrong && !method_wrong && params_wrong
        }),
{
}

/// What is said of a request names what is wrong with it: the version or the field, or what is wrong
/// with the id or with the parameters.
pub proof fn request_error_tells_its_cause(error: JsonRpcRequestFromJsonErrorView)
    ensures
        error matches JsonRpcRequestFromJsonErrorView::MalformedId { source } ==> text::ends_with(
            error.text(),
            source.text(),
        ) && error.short_text() == source.text(),
        error matches JsonRpcRequestFromJsonErrorView::UnrecognizedVersion { version, .. }
            ==> text::holds(error.text(), version),
        error matches JsonRpcRequestFromJsonErrorView::MalformedParams { source, .. }
            ==> text::ends_with(error.text(), source.text()),
        error matches JsonRpcRequestFromJsonErrorView::UnrecognizedField { field, .. }
            ==> text::holds(error.text(), field) && text::ends_with(error.short_text(), field),
{
    match error {
        JsonRpcRequestFromJsonErrorView::MalformedId { source } => {
            text::what_is_put_behind_ends_it("malformed request id: "@, source.text());
        },
        JsonRpcRequestFromJsonErrorView::UnrecognizedVersion { version, .. } => {
            text::what_is_put_between_stands_there(
                "unrecognized json-rpc protocol version ("@,
                version,
                ")"@,
            );
        },
        JsonRpcRequestFromJsonErrorView::MalformedParams { source, .. } => {
            text::what_is_put_behind_ends_it("malformed request params: "@, source.text());
        },
        JsonRpcRequestFromJsonErrorView::UnrecognizedField { field, .. } => {
            text::what_is_put_between_stands_there("unrecognized field '"@, field, "'"@);
            text::what_is_put_behind_ends_it("unexpected key in request: "@, field);
        },
        _ => {},
    }
}

impl JsonRpcRequest {
    /// What the request is.
    pub open spec fn view(&self) -> JsonRpcRequestView {
        JsonRpcRequestView {
            method: self.method@,
            params: json_rpc_params::params_option_view(self.params),
            id: json_rpc_id::id_option_view(self.id),
        }
    }

    /// Reads the request that a JSON value is; the error is the id, as far as it could be read,
    /// and a message for people.
    pub fn from_json(json: JsonValue) -> (read: Result<
        JsonRpcRequest,
        (Option<JsonRpcId>, String),
    >)
        ensures
            match read {
                Ok(request) => request_from_json(json@) == request_read(Ok(request)),
                Err((id, message)) => {
                    &&& request_from_json(json@) is Err
                    &&& json_rpc_id::id_option_view(id) == request_from_json(json@)->Err_0.id()
                    &&& message@ == request_from_json(json@)->Err_0.short_text()
                },
            },
    {
        match JsonRpcRequest::try_from(json) {
            Ok(request) => Ok(request),
            Err(error) => Err((error.id(), error.short_message())),
        }
    }
}

impl Clone for JsonRpcRequest {
    fn clone(&self) -> (copy: JsonRpcRequest)
        ensures
            copy@ == self@,
    {
        let params = match &self.params {
            Some(params) => Some(params.clone()),
            None => None,
        };
        let id = match &self.id {
            Some(id) => Some(id.clone()),
            None => None,
        };
        JsonRpcRequest { method: self.method.clone(), params, id }
    }
}

impl From<JsonRpcRequest> for JsonValue {
    fn from(json_rpc_request: JsonRpcRequest) -> (json: JsonValue)
        ensures
            json@ == json_rpc_request@.to_json(),
    {
        let mut map = JsonMap::new();
        map.insert("jsonrpc".to_owned(), JsonValue::from_text(JSON_RPC_VERSION));
        map.insert("method".to_owned(), JsonValue::String(json_rpc_request.method));
        match json_rpc_request.params {
            Some(params) => {
                map.insert("params".to_owned(), JsonValue::from(params));
            },
            None => {},
        }
        match json_rpc_request.id {
            Some(id) => {
                map.insert("id".to_owned(), JsonValue::from(id));
            },
            None => {},
        }
        JsonValue::Object(map)
    }
}

impl vstd::std_specs::convert::FromSpecImpl<JsonRpcRequest> for JsonValue {
    open spec fn obeys_from_spec() -> bool {
        false
    }

    open spec fn from_spec(json_rpc_request: JsonRpcRequest) -> JsonValue {
        arbitrary()
    }
}

impl TryFrom<JsonValue> for JsonRpcRequest {
    type Error = JsonRpcRequestFromJsonError;

    fn try_from(json: JsonValue) -> (read: Result<JsonRpcRequest, JsonRpcRequestFromJsonError>)
        ensures
            request_read(read) == request_from_json(json@),
    {
        proof {
            crate::json_types::field_names_differ();
        }
        let mut map = match json {
            JsonValue::Object(map) => map,
            _ => return Err(JsonRpcRequestFromJsonError::InvalidJsonType),
        };
        let id = match map.remove("id") {
            Some(id_json) => match JsonRpcId::try_from(id_json) {
                Ok(id) => Some(id),
                Err(source) => {
                    return Err(JsonRpcRequestFromJsonError::MalformedId { source });
                },
            },
            None => None,
        };
        match map.remove("jsonrpc") {
            Some(version_json) => match version_json {
                JsonValue::String(version) => {
                    if !text_eq(version.as_str(), JSON_RPC_VERSION) {
                        return Err(
                            JsonRpcRequestFromJsonError::UnrecognizedVersion { version, id },
                        );
                    }
                },
                _ => {
                    return Err(JsonRpcRequestFromJsonError::InvalidTypeForVersion { id });
                },
            },
            None => {
                return Err(JsonRpcRequestFromJsonError::MissingVersion { id });
            },
        }
        let method = match map.remove("method") {
            Some(method_json) => match method_json {
                JsonValue::String(method) => method,
                _ => {
                    return Err(JsonRpcRequestFromJsonError::InvalidTypeForMethod { id });
                },
            },
            None => {
                return Err(JsonRpcRequestFromJsonError::MissingMethod { id });
            },
        };
        let params = match map.remove("params") {
            None => None,
            Some(params_json) => match JsonRpcParams::try_from(params_json) {
                Ok(params) => Some(params),
                Err(source) => {
                    return Err(JsonRpcRequestFromJsonError::MalformedParams { source, id });
                },
            },
        };
        match map.first_key() {
            Some(field) => Err(JsonRpcRequestFromJsonError::UnrecognizedField { field, id }),
            None => Ok(JsonRpcRequest { method, params, id }),
        }
    }
}

impl vstd::std_specs::convert::TryFromSpecImpl<JsonValue> for JsonRpcRequest {
    open spec fn obeys_try_from_spec() -> bool {
        false
    }

    open spec fn try_from_spec(json: JsonValue) -> Result<JsonRpcRequest, JsonRpcRequestFromJsonError> {
        arbitrary()
    }
}

impl JsonRpcRequestFromJsonErrorView {
    /// The error in words.
    pub open spec fn text(self) -> Seq<char> {
        match self {
            JsonRpcRequestFromJsonErrorView::InvalidJsonType =>
                "json-rpc request must be a json object"@,
            JsonRpcRequestFromJsonErrorView::MalformedId { source } =>
                "malformed request id: "@ + source.text(),
            JsonRpcRequestFromJsonErrorView::UnrecognizedVersion { version, .. } =>
                "unrecognized json-rpc protocol version ("@ + version + ")"@,
            JsonRpcRequestFromJsonErrorView::InvalidTypeForVersion { .. } =>
                "jsonrpc version field must be a string"@,
            JsonRpcRequestFromJsonErrorView::MissingVersion { .. } =>
                "missing jsonrpc version field"@,
            JsonRpcRequestFromJsonErrorView::InvalidTypeForMethod { .. } =>
                "request method field must be a string"@,
            JsonRpcRequestFromJsonErrorView::MissingMethod { .. } =>
                "missing request method field"@,
            JsonRpcRequestFromJsonErrorView::MalformedParams { source, .. } =>
                "malformed request params: "@ + source.text(),
            JsonRpcRequestFromJsonErrorView::UnrecognizedField { field, .. } =>
                "unrecognized field '"@ + field + "'"@,
        }
    }

    /// The error in few words.
    pub open spec fn short_text(self) -> Seq<char> {
        match self {
            JsonRpcRequestFromJsonErrorView::InvalidJsonType => "request must be an object"@,
            JsonRpcRequestFromJsonErrorView::MalformedId { source } => source.text(),
            JsonRpcRequestFromJsonErrorView::UnrecognizedVersion { .. } =>
                "jsonrpc version number must be 2.0"@,
            JsonRpcRequestFromJsonErrorView::InvalidTypeForVersion { .. } =>
                "jsonrpc version must be a string"@,
            JsonRpcRequestFromJsonErrorView::MissingVersion { .. } =>
                "jsonrpc version not specified"@,
            JsonRpcRequestFromJsonErrorView::InvalidTypeForMethod { .. } =>
                "method must be a string"@,
            JsonRpcRequestFromJsonErrorView::MissingMethod { .. } => "method not specified"@,
            JsonRpcRequestFromJsonErrorView::MalformedParams { .. } =>
                "request params must be an array or object"@,
            JsonRpcRequestFromJsonErrorView::UnrecognizedField { field, .. } =>
                "unexpected key in request: "@ + field,
        }
    }

    /// The id of the request, as far as it could be read.
    pub open spec fn id(self) -> Option<JsonRpcIdView> {
        match self {
            JsonRpcRequestFromJsonErrorView::InvalidJsonType => None,
            JsonRpcRequestFromJsonErrorView::MalformedId { .. } => None,
            JsonRpcRequestFromJsonErrorView::UnrecognizedVersion { id, .. } => id,
            JsonRpcRequestFromJsonErrorView::InvalidTypeForVersion { id } => id,
            JsonRpcRequestFromJsonErrorView::MissingVersion { id } => id,
            JsonRpcRequestFromJsonErrorView::InvalidTypeForMethod { id } => id,
            JsonRpcRequestFromJsonErrorView::MissingMethod { id } => id,
            JsonRpcRequestFromJsonErrorView::MalformedParams { id, .. } => id,
            JsonRpcRequestFromJsonErrorView::UnrecognizedField { id, .. } => id,
        }
    }

    /// The response that tells the sender of the request what is wrong with it. It carries the
    /// id of the request, or null where the id could not be read.
    pub open spec fn error_response(self) -> JsonRpcResponseView {
        JsonRpcResponseView {
            id: match self.id() {
                Some(id) => id,
                None => JsonRpcIdView::Null,
            },
            result: Err(
                JsonRpcErrorView {
                    code: error_codes::INVALID_REQUEST,
                    message: self.text(),
                    data: None,
                },
            ),
        }
    }
}

impl JsonRpcRequestFromJsonError {
    /// What the error is.
    pub open spec fn view(&self) -> JsonRpcRequestFromJsonErrorView {
        match *self {
            JsonRpcRequestFromJsonError::InvalidJsonType =>
                JsonRpcRequestFromJsonErrorView::InvalidJsonType,
            JsonRpcRequestFromJsonError::MalformedId { source } =>
                JsonRpcRequestFromJsonErrorView::MalformedId {
                    source,
                },
            JsonRpcRequestFromJsonError::UnrecognizedVersion { version, id } =>
                JsonRpcRequestFromJsonErrorView::UnrecognizedVersion {
                    version: version@,
                    id: json_rpc_id::id_option_view(id),
                },
            JsonRpcRequestFromJsonError::InvalidTypeForVersion { id } =>
                JsonRpcRequestFromJsonErrorView::InvalidTypeForVersion {
                    id: json_rpc_id::id_option_view(id),
                },
            JsonRpcRequestFromJsonError::MissingVersion { id } =>
                JsonRpcRequestFromJsonErrorView::MissingVersion {
                    id: json_rpc_id::id_option_view(id),
                },
            JsonRpcRequestFromJsonError::InvalidTypeForMethod { id } =>
                JsonRpcRequestFromJsonErrorView::InvalidTypeForMethod {
                    id: json_rpc_id::id_option_view(id),
                },
            JsonRpcRequestFromJsonError::MissingMethod { id } =>
                JsonRpcRequestFromJsonErrorView::MissingMethod {
                    id: json_rpc_id::id_option_view(id),
                },
            JsonRpcRequestFromJsonError::MalformedParams { source, id } =>
                JsonRpcRequestFromJsonErrorView::MalformedParams {
                    source,
                    id: json_rpc_id::id_option_view(id),
                },
            JsonRpcRequestFromJsonError::UnrecognizedField { field, id } =>
                JsonRpcRequestFromJsonErrorView::UnrecognizedField {
                    field: field@,
                    id: json_rpc_id::id_option_view(id),
                },
        }
    }

    /// Says in words what is wrong.
    pub fn message(&self) -> (message: String)
        ensures
            message@ == self@.text(),
    {
        match self {
            JsonRpcRequestFromJsonError::InvalidJsonType =>
                "json-rpc request must be a json object".to_owned(),
            JsonRpcRequestFromJsonError::MalformedId { source } => join(
                "malformed request id: ",
                source.message().as_str(),
            ),
            JsonRpcRequestFromJsonError::UnrecognizedVersion { version, .. } => join3(
                "unrecognized json-rpc protocol version (",
                version.as_str(),
                ")",
            ),
            JsonRpcRequestFromJsonError::InvalidTypeForVersion { .. } =>
                "jsonrpc version field must be a string".to_owned(),
            JsonRpcRequestFromJsonError::MissingVersion { .. } =>
                "missing jsonrpc version field".to_owned(),
            JsonRpcRequestFromJsonError::InvalidTypeForMethod { .. } =>
                "request method field must be a string".to_owned(),
            JsonRpcRequestFromJsonError::MissingMethod { .. } =>
                "missing request method field".to_owned(),
            JsonRpcRequestFromJsonError::MalformedParams { source, .. } => join(
                "malformed request params: ",
                source.message().as_str(),
            ),
            JsonRpcRequestFromJsonError::UnrecognizedField { field, .. } => join3(
                "unrecognized field '",
                field.as_str(),
                "'",
            ),
        }
    }

    /// Says in few words what is wrong.
    pub fn short_message(&self) -> (message: String)
        ensures
            message@ == self@.short_text(),
    {
        match self {
            JsonRpcRequestFromJsonError::InvalidJsonType => "request must be an object".to_owned(),
            JsonRpcRequestFromJsonError::MalformedId { source } => source.message(),
            JsonRpcRequestFromJsonError::UnrecognizedVersion { .. } =>
                "jsonrpc version number must be 2.0".to_owned(),
            JsonRpcRequestFromJsonError::InvalidTypeForVersion { .. } =>
                "jsonrpc version must be a string".to_owned(),
            JsonRpcRequestFromJsonError::MissingVersion { .. } =>
                "jsonrpc version not specified".to_owned(),
            JsonRpcRequestFromJsonError::InvalidTypeForMethod { .. } =>
                "method must be a string".to_owned(),
            JsonRpcRequestFromJsonError::MissingMethod { .. } => "method not specified".to_owned(),
            JsonRpcRequestFromJsonError::MalformedParams { .. } =>
                "request params must be an array or object".to_owned(),
            JsonRpcRequestFromJsonError::UnrecognizedField { field, .. } => join(
                "unexpected key in request: ",
                field.as_str(),
            ),
        }
    }

    /// The id of the request, as far as it could be read.
    pub fn id(&self) -> (id: Option<JsonRpcId>)
        ensures
            json_rpc_id::id_option_view(id) == self@.id(),
    {
        let id = match self {
            JsonRpcRequestFromJsonError::InvalidJsonType => return None,
            JsonRpcRequestFromJsonError::MalformedId { .. } => return None,
            JsonRpcRequestFromJsonError::UnrecognizedVersion { id, .. } => id,
            JsonRpcRequestFromJsonError::InvalidTypeForVersion { id } => id,
            JsonRpcRequestFromJsonError::MissingVersion { id } => id,
            JsonRpcRequestFromJsonError::InvalidTypeForMethod { id } => id,
            JsonRpcRequestFromJsonError::MissingMethod { id } => id,
            JsonRpcRequestFromJsonError::MalformedParams { id, .. } => id,
            JsonRpcRequestFromJsonError::UnrecognizedField { id, .. } => id,
        };
        match id {
            Some(id) => Some(id.clone()),
            None => None,
        }
    }

    /// Makes the response that tells the sender of the request what is wrong with it.
    pub fn into_error_response(self) -> (response: JsonRpcResponse)
        ensures
            response@ == self@.error_response(),
    {
        self.as_error_response()
    }

    /// The response that tells the sender of the request what is wrong with it.
    pub fn as_error_response(&self) -> (response: JsonRpcResponse)
        ensures
            response@ == self@.error_response(),
    {
        let id = match self.id() {
            Some(id) => id,
            None => JsonRpcId::Null,
        };
        JsonRpcResponse {
            id,
            result: Err(
                JsonRpcError {
                    code: JsonRpcErrorCode::new_unchecked(error_codes::INVALID_REQUEST),
                    message: self.message(),
                    data: None,
                },
            ),
        }
    }
}

} // verus!
