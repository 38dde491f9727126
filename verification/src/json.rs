//! JSON values as the library sees them.
//!
//! The values themselves are `serde_json`'s. Verified code never looks inside
//! one: it goes through the functions at the end of this file, whose contracts
//! are stated over [`Json`], the mathematical content of a document, and are
//! taken on trust from `serde_json`.

use vstd::prelude::*;

verus! {

#[verifier::external_type_specification]
#[verifier::external_body]
pub struct ExValue(serde_json::Value);

#[verifier::external_type_specification]
#[verifier::external_body]
#[verifier::reject_recursive_types(K)]
#[verifier::reject_recursive_types(V)]
pub struct ExObject<K, V>(serde_json::Map<K, V>);

#[verifier::external_type_specification]
#[verifier::external_body]
pub struct ExNumber(serde_json::Number);

/// A JSON object: string keys, arbitrary JSON values.
pub type JsonObject = serde_json::Map<String, serde_json::Value>;

/// The content of a JSON document. A number is carried as `serde_json` holds
/// it.
pub enum Json {
    Null,
    Bool(bool),
    Number(serde_json::Number),
    Text(Seq<char>),
    Array(Seq<Json>),
    Object(Map<Seq<char>, Json>),
}

/// The content of an object: its members by key.
pub type Members = Map<Seq<char>, Json>;

/// The content of `value`.
pub uninterp spec fn value_model(value: serde_json::Value) -> Json;

/// The members of `object`.
pub uninterp spec fn object_model(object: serde_json::Map<String, serde_json::Value>) -> Members;

/// The contents of a list of values, item by item.
pub open spec fn values_model(values: Seq<serde_json::Value>) -> Seq<Json> {
    values.map_values(|v: serde_json::Value| value_model(v))
}

/// The text under `key`, where that member is a JSON string.
pub open spec fn text_member(members: Members, key: Seq<char>) -> Option<Seq<char>> {
    if members.contains_key(key) {
        match members[key] {
            Json::Text(text) => Some(text),
            _ => None,
        }
    } else {
        None
    }
}

/// The text under `key`, where that member is a JSON string.
pub fn object_text<'a>(object: &'a JsonObject, key: &str) -> (text: Option<&'a str>)
    ensures
        match text {
            Some(t) => text_member(object_model(*object), key@) == Some(t@),
            None => text_member(object_model(*object), key@) is None,
        },
{
    match object_get(object, key) {
        Some(value) => as_text(value),
        None => None,
    }
}

/// `serde_json::Value::as_str`: the text of a JSON string, and nothing for
/// any other value.
#[verifier::external_body]
pub(crate) fn as_text<'a>(value: &'a serde_json::Value) -> (text: Option<&'a str>)
    ensures
        text matches Some(s) ==> value_model(*value) == Json::Text(s@),
        text is None ==> !(value_model(*value) is Text),
{
    value.as_str()
}

/// `serde_json::Value::as_array`: the items of a JSON array, and nothing for
/// any other value.
#[verifier::external_body]
pub(crate) fn as_array<'a>(value: &'a serde_json::Value) -> (items: Option<
    &'a Vec<serde_json::Value>,
>)
    ensures
        items matches Some(v) ==> value_model(*value) == Json::Array(values_model(v@)),
        items is None ==> !(value_model(*value) is Array),
{
    value.as_array()
}

/// `serde_json::Value::as_object`: the members of a JSON object, and nothing
/// for any other value.
#[verifier::external_body]
pub(crate) fn as_object<'a>(value: &'a serde_json::Value) -> (object: Option<&'a JsonObject>)
    ensures
        object matches Some(o) ==> value_model(*value) == Json::Object(object_model(*o)),
        object is None ==> !(value_model(*value) is Object),
{
    value.as_object()
}

/// `serde_json::Map::get`: the member stored under `key`, if there is one.
#[verifier::external_body]
pub(crate) fn object_get<'a>(object: &'a JsonObject, key: &str) -> (member: Option<
    &'a serde_json::Value,
>)
    ensures
        member matches Some(v) ==> object_model(*object).contains_key(key@) && object_model(
            *object,
        )[key@] == value_model(*v),
        member is None ==> !object_model(*object).contains_key(key@),
{
    object.get(key)
}

/// `serde_json::Map::new`: an object without members.
#[verifier::external_body]
pub(crate) fn object_new() -> (object: JsonObject)
    ensures
        object_model(object) == Members::empty(),
{
    serde_json::Map::new()
}

/// `serde_json::Map::insert`: afterwards `key` holds `value`, whatever it
/// held before, and every other member is as it was.
#[verifier::external_body]
pub(crate) fn object_insert(object: &mut JsonObject, key: String, value: serde_json::Value)
    ensures
        object_model(*final(object)) == object_model(*old(object)).insert(
            key@,
            value_model(value),
        ),
{
    object.insert(key, value);
}

/// `Clone` on `serde_json::Map`: a second object with the same members.
#[verifier::external_body]
pub(crate) fn object_clone(object: &JsonObject) -> (copy: JsonObject)
    ensures
        object_model(copy) == object_model(*object),
{
    object.clone()
}

/// `Clone` on `serde_json::Value`: a second value with the same content.
#[verifier::external_body]
pub(crate) fn value_clone(value: &serde_json::Value) -> (copy: serde_json::Value)
    ensures
        value_model(copy) == value_model(*value),
{
    value.clone()
}

/// `serde_json::Value::String`: the JSON string with the given text.
#[verifier::external_body]
pub(crate) fn text_value(text: String) -> (value: serde_json::Value)
    ensures
        value_model(value) == Json::Text(text@),
{
    serde_json::Value::String(text)
}

/// `serde_json::Value::Bool`: the JSON boolean.
#[verifier::external_body]
pub(crate) fn bool_value(flag: bool) -> (value: serde_json::Value)
    ensures
        value_model(value) == Json::Bool(flag),
{
    serde_json::Value::Bool(flag)
}

/// `serde_json::Value::Array`: the JSON array of the given items.
#[verifier::external_body]
pub(crate) fn array_value(items: Vec<serde_json::Value>) -> (value: serde_json::Value)
    ensures
        value_model(value) == Json::Array(values_model(items@)),
{
    serde_json::Value::Array(items)
}

/// `serde_json::Value::Object`: the JSON object with the given members.
#[verifier::external_body]
pub(crate) fn object_value(object: JsonObject) -> (value: serde_json::Value)
    ensures
        value_model(value) == Json::Object(object_model(object)),
{
    serde_json::Value::Object(object)
}

} // verus!
