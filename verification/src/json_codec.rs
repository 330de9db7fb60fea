//! JSON values as text, read and written by `serde_json`.

use crate::json_value;
use crate::json_value::{JsonMap, JsonValue, JsonView};
use vstd::prelude::*;

verus! {

/// The outside type of JSON values.
#[verifier::external_type_specification]
#[verifier::external_body]
pub struct ExValue(serde_json::Value);

/// What an outside JSON value holds.
pub uninterp spec fn json_of(value: serde_json::Value) -> JsonView;

/// How deep the arrays and objects of an outside JSON value are nested.
pub uninterp spec fn nesting_of(value: serde_json::Value) -> nat;

/// What reading gives: a value, or else the message of an error.
pub enum JsonRead {
    Value(JsonView),
    Error(Seq<char>),
}

/// What `serde_json` reads out of a text: a value, or else the message of the error.
pub uninterp spec fn json_read(text: Seq<char>) -> JsonRead;

/// What `serde_json` reads out of bytes: a value, or else the message of the error.
pub uninterp spec fn json_read_bytes(bytes: Seq<u8>) -> JsonRead;

/// The compact text that `serde_json` writes for a value.
pub uninterp spec fn json_text(json: JsonView) -> Seq<char>;

/// One layer of an outside JSON value.
pub enum Layer {
    Null,
    Bool(bool),
    Number(serde_json::Number),
    String(String),
    Array(Vec<serde_json::Value>),
    Object(Vec<(String, serde_json::Value)>),
}

/// What a sequence of outside values holds.
pub open spec fn items_of(items: Seq<serde_json::Value>) -> Seq<JsonView> {
    Seq::new(items.len(), |i: int| json_of(items[i]))
}

/// The fields that a sequence of outside entries makes up; a later entry replaces an earlier one.
pub open spec fn fields_of(entries: Seq<(String, serde_json::Value)>) -> Map<Seq<char>, JsonView>
    decreases entries.len(),
{
    if entries.len() == 0 {
        Map::empty()
    } else {
        fields_of(entries.drop_last()).insert(entries.last().0@, json_of(entries.last().1))
    }
}

impl Layer {
    /// What the value is whose outermost layer this is.
    pub open spec fn view(&self) -> JsonView {
        match *self {
            Layer::Null => JsonView::Null,
            Layer::Bool(b) => JsonView::Bool(b),
            Layer::Number(n) => json_value::number_view(n),
            Layer::String(s) => JsonView::String(s@),
            Layer::Array(items) => JsonView::Array(items_of(items@)),
            Layer::Object(entries) => JsonView::Object(fields_of(entries@)),
        }
    }

    /// The values inside are nested less deep than `depth`.
    pub open spec fn within(&self, depth: nat) -> bool {
        match *self {
            Layer::Array(items) => forall|i: int|
                #![trigger items@[i]]
                0 <= i < items@.len() ==> nesting_of(items@[i]) < depth,
            Layer::Object(entries) => forall|i: int|
                #![trigger entries@[i]]
                0 <= i < entries@.len() ==> nesting_of(entries@[i].1) < depth,
            _ => true,
        }
    }
}

/// Tells the variants of `serde_json::Value` apart. The fields of an object come from
/// `serde_json::Map::into_iter`.
#[verifier::external_body]
fn take_apart(value: serde_json::Value) -> (layer: Layer)
    ensures
        layer@ == json_of(value),
        layer.within(nesting_of(value)),
{
    match value {
        serde_json::Value::Null => Layer::Null,
        serde_json::Value::Bool(b) => Layer::Bool(b),
        serde_json::Value::Number(n) => Layer::Number(n),
        serde_json::Value::String(s) => Layer::String(s),
        serde_json::Value::Array(items) => Layer::Array(items),
        serde_json::Value::Object(map) => Layer::Object(map.into_iter().collect()),
    }
}

/// Makes the `serde_json::Value` with the given outermost layer. The fields of an object go
/// through `serde_json::Map::from_iter`, which keeps the last of several entries with one name.
#[verifier::external_body]
fn put_together(layer: Layer) -> (value: serde_json::Value)
    ensures
        json_of(value) == layer@,
{
    match layer {
        Layer::Null => serde_json::Value::Null,
        Layer::Bool(b) => serde_json::Value::Bool(b),
        Layer::Number(n) => serde_json::Value::Number(n),
        Layer::String(s) => serde_json::Value::String(s),
        Layer::Array(items) => serde_json::Value::Array(items),
        Layer::Object(entries) => serde_json::Value::Object(entries.into_iter().collect()),
    }
}

/// Takes an outside value over into a value of the library.
pub fn from_outside(value: serde_json::Value) -> (json: JsonValue)
    ensures
        json@ == json_of(value),
    decreases nesting_of(value),
{
    let ghost depth = nesting_of(value);
    match take_apart(value) {
        Layer::Null => JsonValue::Null,
        Layer::Bool(b) => JsonValue::Bool(b),
        Layer::Number(n) => JsonValue::Number(n),
        Layer::String(s) => JsonValue::String(s),
        Layer::Array(items) => {
            let mut taken: Vec<JsonValue> = Vec::new();
            for item in rest: items
                invariant
                    rest.seq() == items@,
                    depth == nesting_of(value),
                    forall|i: int|
                        #![trigger items@[i]]
                        0 <= i < items@.len() ==> nesting_of(items@[i]) < depth,
                    taken@.len() == rest.index(),
                    forall|i: int|
                        #![trigger taken@[i]]
                        0 <= i < taken@.len() ==> taken@[i]@ == json_of(items@[i]),
            {
                assert(item == items@[rest.index() as int]);
                taken.push(from_outside(item));
            }
            assert(json_value::values_view(taken@) =~= items_of(items@));
            JsonValue::Array(taken)
        },
        Layer::Object(entries) => {
            let mut taken: Vec<(String, JsonValue)> = Vec::new();
            for entry in rest: entries
                invariant
                    rest.seq() == entries@,
                    depth == nesting_of(value),
                    forall|i: int|
                        #![trigger entries@[i]]
                        0 <= i < entries@.len() ==> nesting_of(entries@[i].1) < depth,
                    json_value::entries_view(taken@) == fields_of(
                        entries@.take(rest.index() as int),
                    ),
            {
                let ghost n = rest.index() as int;
                let ghost before = taken@;
                assert(entry == entries@[n]);
                taken.push((entry.0, from_outside(entry.1)));
                assert(taken@.drop_last() =~= before);
                assert(entries@.take(n + 1).drop_last() =~= entries@.take(n));
            }
            assert(entries@.take(entries@.len() as int) =~= entries@);
            JsonValue::Object(JsonMap::from_entries(taken))
        },
    }
}

/// Hands a value of the library over as an outside value.
pub fn to_outside(json: JsonValue) -> (value: serde_json::Value)
    ensures
        json_of(value) == json@,
    decreases json,
{
    let layer = match json {
        JsonValue::Null => Layer::Null,
        JsonValue::Bool(b) => Layer::Bool(b),
        JsonValue::Number(n) => Layer::Number(n),
        JsonValue::String(s) => Layer::String(s),
        JsonValue::Array(items) => {
            let mut given: Vec<serde_json::Value> = Vec::new();
            for item in rest: items
                invariant
                    rest.seq() == items@,
                    json == JsonValue::Array(items),
                    given@.len() == rest.index(),
                    forall|i: int|
                        #![trigger given@[i]]
                        0 <= i < given@.len() ==> json_of(given@[i]) == items@[i]@,
            {
                assert(item == items@[rest.index() as int]);
                assert(decreases_to!(json => json->Array_0@[rest.index() as int]));
                given.push(to_outside(item));
            }
            assert(items_of(given@) =~= json_value::values_view(items@));
            Layer::Array(given)
        },
        JsonValue::Object(map) => {
            let entries = map.into_entries();
            let mut given: Vec<(String, serde_json::Value)> = Vec::new();
            for entry in rest: entries
                invariant
                    rest.seq() == entries@,
                    json == JsonValue::Object(map),
                    forall|i: int|
                        #![trigger entries@[i]]
                        0 <= i < entries@.len() ==> decreases_to!(map => entries@[i].1),
                    fields_of(given@) == json_value::entries_view(
                        entries@.take(rest.index() as int),
                    ),
            {
                let ghost n = rest.index() as int;
                let ghost before = given@;
                assert(entry == entries@[n]);
                assert(decreases_to!(json => json->Object_0));
                given.push((entry.0, to_outside(entry.1)));
                assert(given@.drop_last() =~= before);
                assert(entries@.take(n + 1).drop_last() =~= entries@.take(n));
            }
            assert(entries@.take(entries@.len() as int) =~= entries@);
            Layer::Object(given)
        },
    };
    put_together(layer)
}

/// The message of an error that `serde_json` meets in a text.
#[derive(Debug, PartialEq)]
pub struct JsonTextError {
    pub message: String,
}

/// `serde_json::from_str`, called for a `serde_json::Value`. What it reads depends on the text
/// alone, and so does the message of its error.
#[verifier::external_body]
fn outside_read(text: &str) -> (read: Result<serde_json::Value, String>)
    ensures
        match read {
            Ok(value) => json_read(text@) == JsonRead::Value(json_of(value)),
            Err(message) => json_read(text@) == JsonRead::Error(message@),
        },
{
    serde_json::from_str(text).map_err(|error| error.to_string())
}

/// `serde_json::from_slice`, called for a `serde_json::Value`. What it reads depends on the bytes
/// alone, and so does the message of its error.
#[verifier::external_body]
fn outside_read_bytes(bytes: &[u8]) -> (read: Result<serde_json::Value, String>)
    ensures
        match read {
            Ok(value) => json_read_bytes(bytes@) == JsonRead::Value(json_of(value)),
            Err(message) => json_read_bytes(bytes@) == JsonRead::Error(message@),
        },
{
    serde_json::from_slice(bytes).map_err(|error| error.to_string())
}

/// `serde_json::to_vec`, called on a `serde_json::Value`, where it cannot fail. The text is
/// compact: control characters are escaped, so no line feed is in it. `serde_json::from_str`
/// reads the same value back, with a line feed behind the text too, as long as the value holds
/// only integers and its nesting is within the limit of the reader. Nothing is said of reading
/// a fraction back.
#[verifier::external_body]
fn outside_write(value: &serde_json::Value) -> (bytes: Vec<u8>)
    ensures
        bytes@ == vstd::utf8::encode_utf8(json_text(json_of(*value))),
        !bytes@.contains(10u8),
        reads_back(json_of(*value), READ_DEPTH as nat) ==> json_read(
            vstd::utf8::decode_utf8(bytes@).push('\n'),
        ) == JsonRead::Value(json_of(*value)),
{
    serde_json::to_vec(value).unwrap()
}

/// The deepest nesting of arrays and objects that the reader takes.
pub const READ_DEPTH: usize = 127;

/// The value holds no fraction, and its arrays and objects are nested at most `depth` deep.
pub open spec fn reads_back(json: JsonView, depth: nat) -> bool
    decreases depth,
{
    match json {
        JsonView::Float(_) => false,
        JsonView::Array(items) => {
            &&& depth > 0
            &&& forall|i: int|
                #![trigger items[i]]
                0 <= i < items.len() ==> reads_back(items[i], (depth - 1) as nat)
        },
        JsonView::Object(fields) => {
            &&& depth > 0
            &&& forall|name: Seq<char>| #[trigger]
                fields.contains_key(name) ==> reads_back(fields[name], (depth - 1) as nat)
        },
        _ => true,
    }
}

/// Reads the JSON value that `text` is.
pub fn read_json(text: &str) -> (read: Result<JsonValue, JsonTextError>)
    ensures
        match read {
            Ok(json) => json_read(text@) == JsonRead::Value(json@),
            Err(error) => json_read(text@) == JsonRead::Error(error.message@),
        },
{
    match outside_read(text) {
        Ok(value) => Ok(from_outside(value)),
        Err(message) => Err(JsonTextError { message }),
    }
}

/// Reads the JSON value that the text in `bytes` is.
pub fn read_json_bytes(bytes: &[u8]) -> (read: Result<JsonValue, JsonTextError>)
    ensures
        match read {
            Ok(json) => json_read_bytes(bytes@) == JsonRead::Value(json@),
            Err(error) => json_read_bytes(bytes@) == JsonRead::Error(error.message@),
        },
{
    match outside_read_bytes(bytes) {
        Ok(value) => Ok(from_outside(value)),
        Err(message) => Err(JsonTextError { message }),
    }
}

/// Writes a JSON value on one line, without a line feed behind it.
pub fn write_json(json: JsonValue) -> (bytes: Vec<u8>)
    ensures
        bytes@ == vstd::utf8::encode_utf8(json_text(json@)),
        !bytes@.contains(10u8),
        reads_back(json@, READ_DEPTH as nat) ==> json_read(
            vstd::utf8::decode_utf8(bytes@).push('\n'),
        ) == JsonRead::Value(json@),
{
    let value = to_outside(json);
    outside_write(&value)
}

} // verus!
