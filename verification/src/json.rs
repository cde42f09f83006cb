//! JSON values as the gateway handles them.
//!
//! Requests and replies carry `serde_json` values. Their representation is not
//! visible to the verifier, so this module names what such a value holds and
//! states, for each `serde_json` operation the gateway uses, how the operation
//! acts on those contents. Everything marked `external_body` here is believed,
//! not proved.

use serde_json::Value;
use vstd::prelude::*;

verus! {

/// `serde_json::Value`, carried as it is: its variants are not read here.
#[verifier::external_type_specification]
#[verifier::external_body]
pub struct ExValue(serde_json::Value);

/// `serde_json::Map`, the map inside a JSON object.
#[verifier::external_type_specification]
#[verifier::external_body]
#[verifier::reject_recursive_types(K)]
#[verifier::reject_recursive_types(V)]
pub struct ExMap<K, V>(serde_json::Map<K, V>);

/// `serde_json::Error`, of which only its presence is used.
#[verifier::external_type_specification]
#[verifier::external_body]
pub struct ExError(serde_json::Error);

/// What a JSON value holds, one level deep. Members of arrays and objects stay
/// JSON values of their own. An object is described by its key-to-member map;
/// the order of its keys is not part of the description.
pub enum JsonShape {
    Null,
    Bool(bool),
    Number,
    Text(Seq<char>),
    Array(Seq<Value>),
    Object(Map<Seq<char>, Value>),
}

/// The contents of a JSON value: which variant of `serde_json::Value` it is,
/// and what that variant carries.
pub uninterp spec fn json_shape(v: Value) -> JsonShape;

/// The contents of a `serde_json::Map`: each key with the value stored under it.
pub uninterp spec fn map_entries(m: serde_json::Map<String, Value>) -> Map<Seq<char>, Value>;

/// What `serde_json::Value::as_i64` returns for a value.
pub uninterp spec fn json_i64(v: Value) -> Option<i64>;

/// What `serde_json::to_string` makes of a value: its compact JSON text, or
/// `None` where the serializer reports an error.
pub uninterp spec fn json_text(v: Value) -> Option<Seq<char>>;

/// The entries of a map that holds nothing.
pub open spec fn no_entries() -> Map<Seq<char>, Value> {
    Map::empty()
}

/// The member stored under `key`, for an object that has such a key.
pub open spec fn member_of(v: Value, key: Seq<char>) -> Option<Value> {
    match json_shape(v) {
        JsonShape::Object(fields) => if fields.dom().contains(key) {
            Some(fields[key])
        } else {
            None
        },
        _ => None,
    }
}

/// `v` is an object with the single key `key`.
pub open spec fn has_only_member(v: Value, key: Seq<char>) -> bool {
    match json_shape(v) {
        JsonShape::Object(fields) => fields.dom() =~= set![key],
        _ => false,
    }
}

/// `serde_json::Value::as_object`: the map inside an object, `None` for every
/// other kind of value.
#[verifier::external_body]
pub(crate) fn as_object(v: &Value) -> (r: Option<&serde_json::Map<String, Value>>)
    ensures
        match r {
            Some(m) => json_shape(*v) == JsonShape::Object(map_entries(*m)),
            None => !(json_shape(*v) is Object),
        },
{
    v.as_object()
}

/// `serde_json::Value::get` with a string key: the member of an object stored
/// under that key; `None` when the key is missing or the value is no object.
#[verifier::external_body]
pub(crate) fn member<'a>(v: &'a Value, key: &str) -> (r: Option<&'a Value>)
    ensures
        match r {
            Some(found) => member_of(*v, key@) == Some(*found),
            None => member_of(*v, key@) is None,
        },
{
    v.get(key)
}

/// `serde_json::Value::as_i64`: `None` for whatever is no number. What it
/// gives for a number only has its name here.
#[verifier::external_body]
pub(crate) fn as_i64(v: &Value) -> (r: Option<i64>)
    ensures
        r == json_i64(*v),
        r is Some ==> json_shape(*v) is Number,
{
    v.as_i64()
}

/// `Clone::clone` of `serde_json::Map`: the copy has the same entries.
#[verifier::external_body]
pub(crate) fn clone_map(m: &serde_json::Map<String, Value>) -> (r: serde_json::Map<String, Value>)
    ensures
        map_entries(r) == map_entries(*m),
{
    m.clone()
}

/// `serde_json::Map::new`: a map without entries.
#[verifier::external_body]
pub(crate) fn new_map() -> (r: serde_json::Map<String, Value>)
    ensures
        map_entries(r) == no_entries(),
{
    serde_json::Map::new()
}

/// `serde_json::Map::insert`: afterwards `key` maps to `value` and every other
/// key is as before. Returns the value that `key` had, if any.
#[verifier::external_body]
pub(crate) fn map_insert(
    m: &mut serde_json::Map<String, Value>,
    key: String,
    value: Value,
) -> (r: Option<Value>)
    ensures
        map_entries(*final(m)) == map_entries(*old(m)).insert(key@, value),
        r == if map_entries(*old(m)).dom().contains(key@) {
            Some(map_entries(*old(m))[key@])
        } else {
            None
        },
{
    m.insert(key, value)
}

/// `Value::from` on a `serde_json::Map`: the object with that map's entries.
#[verifier::external_body]
pub(crate) fn object_value(m: serde_json::Map<String, Value>) -> (r: Value)
    ensures
        json_shape(r) == JsonShape::Object(map_entries(m)),
{
    Value::from(m)
}

/// `Value::from` on a `String`: the JSON string with that text.
#[verifier::external_body]
pub(crate) fn text_value(s: String) -> (r: Value)
    ensures
        json_shape(r) == JsonShape::Text(s@),
{
    Value::from(s)
}

/// `Value::from` on a `Vec` of values: the array with those items, in order.
#[verifier::external_body]
pub(crate) fn array_value(items: Vec<Value>) -> (r: Value)
    ensures
        json_shape(r) == JsonShape::Array(items@),
{
    Value::from(items)
}

/// `Value::default`: JSON null.
#[verifier::external_body]
pub(crate) fn null_value() -> (r: Value)
    ensures
        json_shape(r) == JsonShape::Null,
{
    Value::default()
}

/// `serde_json::to_string` on a value. The contract only gives the result its
/// name: the same value is always serialized the same way, to the same text
/// or to an error. When that is an error is not said.
#[verifier::external_body]
pub(crate) fn to_text(v: &Value) -> (r: Result<String, serde_json::Error>)
    ensures
        match r {
            Ok(text) => json_text(*v) == Some(text@),
            Err(_) => json_text(*v) is None,
        },
{
    serde_json::to_string(v)
}

} // verus!
