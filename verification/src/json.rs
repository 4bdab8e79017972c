//! A ghost model of parsed JSON documents, and trusted access to
//! serde_json's parser and `Value` type. The recognized event shapes only
//! ever read string fields of objects, so the model keeps strings and object
//! structure exactly and does not retain the value of numbers (a JSON number
//! need not fit an integer).

use vstd::prelude::*;

verus! {

/// Ghost model of a parsed JSON document.
pub enum JsonModel {
    Null,
    Bool(bool),
    Num,
    Str(Seq<char>),
    Arr(Seq<JsonModel>),
    Obj(Map<Seq<char>, JsonModel>),
}

#[verifier::external_type_specification]
#[verifier::external_body]
pub struct ExValue(serde_json::Value);

/// The document that a `serde_json::Value` holds, as a `JsonModel`.
pub uninterp spec fn json_model(v: serde_json::Value) -> JsonModel;

/// What serde_json's parser yields for a line of text: the parsed document,
/// or `None` where the text is not valid JSON.
pub uninterp spec fn json_parse(s: Seq<char>) -> Option<JsonModel>;

/// Whether the document is an object with the given key.
pub open spec fn obj_has(j: JsonModel, key: Seq<char>) -> bool {
    j is Obj && j->Obj_0.contains_key(key)
}

/// The field stored under the given key.
pub open spec fn obj_field(j: JsonModel, key: Seq<char>) -> JsonModel
    recommends
        obj_has(j, key),
{
    j->Obj_0[key]
}

/// The string stored under the given key, where the document is an object,
/// the key is present, and the field is a string; `None` otherwise.
pub open spec fn obj_str(j: JsonModel, key: Seq<char>) -> Option<Seq<char>> {
    if obj_has(j, key) && obj_field(j, key) is Str {
        Some(obj_field(j, key)->Str_0)
    } else {
        None
    }
}

/// Relies on serde_json::from_str::<Value>: parsing succeeds or fails on the
/// characters of the line alone, and yields the document they spell.
#[verifier::external_body]
pub fn parse_json(line: &str) -> (r: Option<serde_json::Value>)
    ensures
        match r {
            Some(v) => json_parse(line@) == Some(json_model(v)),
            None => json_parse(line@) is None,
        },
{
    serde_json::from_str(line).ok()
}

/// Relies on serde_json::Value::get with a string index: on an object it
/// looks the key up, on every other value it returns `None`.
#[verifier::external_body]
pub fn value_get<'a>(v: &'a serde_json::Value, key: &str) -> (r: Option<
    &'a serde_json::Value,
>)
    ensures
        match r {
            Some(f) => obj_has(json_model(*v), key@) && json_model(*f) == obj_field(
                json_model(*v),
                key@,
            ),
            None => !obj_has(json_model(*v), key@),
        },
{
    v.get(key)
}

/// Relies on serde_json::Value::as_str: `Some` with the characters iff the
/// value is a JSON string.
#[verifier::external_body]
pub fn value_as_str<'a>(v: &'a serde_json::Value) -> (r: Option<&'a str>)
    ensures
        match r {
            Some(s) => json_model(*v) == JsonModel::Str(s@),
            None => !(json_model(*v) is Str),
        },
{
    v.as_str()
}

} // verus!
