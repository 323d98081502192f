//! The boundary to serde_json: its tree type `Value`, its object type `Map`,
//! and the few operations on them that the patching logic uses.
//!
//! `Value` and `Map` are opaque here. What the logic needs of them is named
//! by the spec functions below, each the result of one serde_json operation.
//! serde_json is built without its `preserve_order` feature, so an object is
//! the set of its entries, kept and written in key order: an object value is
//! determined by its entries (`json_object`).
use serde_json::{Map as JsonMap, Value};
use vstd::prelude::*;

verus! {

#[verifier::external_type_specification]
#[verifier::external_body]
pub struct ExValue(serde_json::Value);

#[verifier::external_type_specification]
#[verifier::external_body]
#[verifier::reject_recursive_types(K)]
#[verifier::reject_recursive_types(V)]
pub struct ExJsonMap<K, V>(serde_json::Map<K, V>);

#[verifier::external_type_specification]
#[verifier::external_body]
pub struct ExJsonError(serde_json::Error);

/// The entries of a JSON object map, keyed by the text of each key.
pub uninterp spec fn json_entries(m: JsonMap<String, Value>) -> Map<Seq<char>, Value>;

/// The JSON object value holding the given entries (`Value::Object`).
pub uninterp spec fn json_object(entries: Map<Seq<char>, Value>) -> Value;

/// The entries of a JSON value that is an object; `None` for any other value.
pub uninterp spec fn object_entries(v: Value) -> Option<Map<Seq<char>, Value>>;

/// The JSON string value holding the given text (`Value::String`).
pub uninterp spec fn json_string(s: Seq<char>) -> Value;

/// The text of a JSON value that is a string (`Value::as_str`); `None` otherwise.
pub uninterp spec fn str_of(v: Value) -> Option<Seq<char>>;

/// The JSON array value holding the given items (`Value::Array`).
pub uninterp spec fn json_array(items: Seq<Value>) -> Value;

/// The items of a JSON value that is an array; `None` for any other value.
pub uninterp spec fn array_items(v: Value) -> Option<Seq<Value>>;

/// The value that `serde_json::from_str` reads from a text, or `None` where
/// the text is no JSON document.
pub uninterp spec fn parsed_json(text: Seq<char>) -> Option<Value>;

/// The text that `serde_json::to_string_pretty` writes for a value, or `None`
/// where it reports an error.
pub uninterp spec fn pretty_json(v: Value) -> Option<Seq<char>>;

/// The entries of an empty object.
pub open spec fn no_entries() -> Map<Seq<char>, Value> {
    Map::empty()
}

/// Relies on `serde_json::Map::new`: a map without entries.
#[verifier::external_body]
pub(crate) fn new_object_map() -> (r: JsonMap<String, Value>)
    ensures
        json_entries(r) == no_entries(),
{
    JsonMap::new()
}

/// Relies on `serde_json::Map::contains_key`: whether an entry has the key.
#[verifier::external_body]
pub(crate) fn map_contains(m: &JsonMap<String, Value>, key: &str) -> (r: bool)
    ensures
        r == json_entries(*m).contains_key(key@),
{
    m.contains_key(key)
}

/// Relies on `serde_json::Map::insert`: the entry under the key becomes the
/// given value; all other entries stay.
#[verifier::external_body]
pub(crate) fn map_insert(m: &mut JsonMap<String, Value>, key: String, v: Value)
    ensures
        json_entries(*final(m)) == json_entries(*old(m)).insert(key@, v),
{
    m.insert(key, v);
}

/// Relies on `serde_json::Map::remove`: the entry under the key leaves the
/// map and is handed back; all other entries stay.
#[verifier::external_body]
pub(crate) fn map_remove(m: &mut JsonMap<String, Value>, key: &str) -> (r: Option<Value>)
    ensures
        json_entries(*final(m)) == json_entries(*old(m)).remove(key@),
        json_entries(*old(m)).contains_key(key@) ==> r == Some(
            json_entries(*old(m))[key@],
        ),
        !json_entries(*old(m)).contains_key(key@) ==> r is None,
{
    m.remove(key)
}

/// Relies on `Value::Object`: the object value that holds the map.
#[verifier::external_body]
pub(crate) fn object_value(m: JsonMap<String, Value>) -> (r: Value)
    ensures
        r == json_object(json_entries(m)),
{
    Value::Object(m)
}

/// Relies on `Value::Object`: hands out the map of a value that is an object,
/// and gives any other value back.
#[verifier::external_body]
pub(crate) fn into_object(v: Value) -> (r: Result<JsonMap<String, Value>, Value>)
    ensures
        match r {
            Ok(m) => object_entries(v) == Some(json_entries(m)),
            Err(w) => w == v && object_entries(v) is None,
        },
{
    match v {
        Value::Object(m) => Ok(m),
        other => Err(other),
    }
}

/// Relies on `Value::String`: the string value that holds the text.
#[verifier::external_body]
pub(crate) fn string_value(s: String) -> (r: Value)
    ensures
        r == json_string(s@),
{
    Value::String(s)
}

/// Relies on `Value::as_str`: the text of a string value, `None` otherwise.
#[verifier::external_body]
pub(crate) fn value_as_str(v: &Value) -> (r: Option<&str>)
    ensures
        match r {
            Some(s) => str_of(*v) == Some(s@),
            None => str_of(*v) is None,
        },
{
    v.as_str()
}

/// Relies on `Value::Array`: the array value that holds the items.
#[verifier::external_body]
pub(crate) fn array_value(items: Vec<Value>) -> (r: Value)
    ensures
        r == json_array(items@),
{
    Value::Array(items)
}

/// Relies on `Value::Array`: hands out the items of a value that is an
/// array, and gives any other value back.
#[verifier::external_body]
pub(crate) fn into_array(v: Value) -> (r: Result<Vec<Value>, Value>)
    ensures
        match r {
            Ok(items) => array_items(v) == Some(items@),
            Err(w) => w == v && array_items(v) is None,
        },
{
    match v {
        Value::Array(items) => Ok(items),
        other => Err(other),
    }
}

/// Relies on `serde_json::from_str`, read as a `Value`: the result depends on
/// the text alone.
#[verifier::external_body]
pub(crate) fn parse_value(text: &str) -> (r: Result<Value, serde_json::Error>)
    ensures
        match r {
            Ok(v) => parsed_json(text@) == Some(v),
            Err(_) => parsed_json(text@) is None,
        },
{
    serde_json::from_str::<Value>(text)
}

/// Relies on `serde_json::to_string_pretty` on a `Value`: the result depends
/// on the value alone.
#[verifier::external_body]
pub(crate) fn render_value(v: &Value) -> (r: Result<String, serde_json::Error>)
    ensures
        match r {
            Ok(s) => pretty_json(*v) == Some(s@),
            Err(_) => pretty_json(*v) is None,
        },
{
    serde_json::to_string_pretty(v)
}

} // verus!
