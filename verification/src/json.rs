//! The JSON documents that workers print, as `serde_json` holds them, and the
//! mathematical picture of them that the contracts of this library speak of.

use crate::text::opt_text;
use serde_json::Value;
use vstd::prelude::*;

verus! {

/// What a JSON document holds, as far as this library reads it.
///
/// A number is told apart only by whether it is a non-negative integer that
/// fits 64 bits; every other number looks the same from here.
pub enum JsonModel {
    Null,
    Bool(bool),
    Unsigned(u64),
    OtherNumber,
    String(Seq<char>),
    Array(Seq<JsonModel>),
    Object(Map<Seq<char>, JsonModel>),
}

impl JsonModel {
    /// The member of an object under `key`; nothing for a key that the object
    /// lacks, and nothing for a document that is no object.
    pub open spec fn member(self, key: Seq<char>) -> Option<JsonModel> {
        match self {
            JsonModel::Object(members) => if members.dom().contains(key) {
                Some(members[key])
            } else {
                None
            },
            _ => None,
        }
    }
}

/// The first of two lookups that found anything: the first-match-wins rule by
/// which a current key is preferred over its older synonym.
pub open spec fn first_present(first: Option<JsonModel>, second: Option<JsonModel>) -> Option<
    JsonModel,
> {
    match first {
        Some(_) => first,
        None => second,
    }
}

/// The text of a looked-up member, where it is a string.
pub open spec fn text_of(found: Option<JsonModel>) -> Option<Seq<char>> {
    match found {
        Some(JsonModel::String(text)) => Some(text),
        _ => None,
    }
}

/// The truth value of a looked-up member, where it is a boolean.
pub open spec fn flag_of(found: Option<JsonModel>) -> Option<bool> {
    match found {
        Some(JsonModel::Bool(flag)) => Some(flag),
        _ => None,
    }
}

/// The count in a looked-up member, where it is a non-negative integer.
pub open spec fn count_of(found: Option<JsonModel>) -> Option<u64> {
    match found {
        Some(JsonModel::Unsigned(count)) => Some(count),
        _ => None,
    }
}

/// The elements of a looked-up member, where it is an array.
pub open spec fn items_of(found: Option<JsonModel>) -> Option<Seq<JsonModel>> {
    match found {
        Some(JsonModel::Array(items)) => Some(items),
        _ => None,
    }
}

/// The members of a looked-up member, where it is an object.
pub open spec fn members_of(found: Option<JsonModel>) -> Option<Map<Seq<char>, JsonModel>> {
    match found {
        Some(JsonModel::Object(members)) => Some(members),
        _ => None,
    }
}

/// The text of a member, or `fallback` where it is absent or no string.
pub open spec fn text_or(found: Option<JsonModel>, fallback: Seq<char>) -> Seq<char> {
    match text_of(found) {
        Some(text) => text,
        None => fallback,
    }
}

/// The truth value of a member, or `fallback` where it is absent or no boolean.
pub open spec fn flag_or(found: Option<JsonModel>, fallback: bool) -> bool {
    match flag_of(found) {
        Some(flag) => flag,
        None => fallback,
    }
}

/// The count in a member, or zero where it is absent or no such number.
pub open spec fn count_or_zero(found: Option<JsonModel>) -> u64 {
    match count_of(found) {
        Some(count) => count,
        None => 0,
    }
}

/// `serde_json::Value`, a JSON document in memory. What it holds is seen
/// through `json_model` only.
#[verifier::external_type_specification]
#[verifier::external_body]
pub struct ExValue(serde_json::Value);

/// `serde_json::Map`, the map inside a JSON object. What it holds is seen
/// through `json_members` only.
#[verifier::external_type_specification]
#[verifier::external_body]
#[verifier::reject_recursive_types(K)]
#[verifier::reject_recursive_types(V)]
pub struct ExJsonMap<K, V>(serde_json::Map<K, V>);

/// `serde_json::Error`, what a failed parse or a failed write gives. It is
/// only printed.
#[verifier::external_type_specification]
#[verifier::external_body]
pub struct ExJsonError(serde_json::Error);

/// The document that a `serde_json::Value` holds.
pub uninterp spec fn json_model(v: serde_json::Value) -> JsonModel;

/// The members that the map inside a JSON object holds, each under its key.
pub uninterp spec fn json_members(m: serde_json::Map<String, serde_json::Value>) -> Map<
    Seq<char>,
    JsonModel,
>;

/// The document that a text is parsed to, where it is one JSON document and
/// nothing else.
pub uninterp spec fn json_parse(text: Seq<char>) -> Option<JsonModel>;

/// The text that a `serde_json::Value` is written as, on one line; nothing
/// for a value that cannot be written.
pub uninterp spec fn json_text(v: serde_json::Value) -> Option<Seq<char>>;

/// The documents that a run of values holds, one by one.
pub open spec fn models(values: Seq<Value>) -> Seq<JsonModel> {
    values.map_values(|v: Value| json_model(v))
}

/// `serde_json::Value::get` with a string index: the member of an object
/// under `key`, and `None` for a key that the object lacks and for every value
/// that is no object.
#[verifier::external_body]
pub(crate) fn value_get<'a>(v: &'a Value, key: &str) -> (r: Option<&'a Value>)
    ensures
        match r {
            Some(m) => json_model(*v).member(key@) == Some(json_model(*m)),
            None => json_model(*v).member(key@) is None,
        },
{
    v.get(key)
}

/// `as_bool` gives the truth value of a boolean and `None` for anything else.
pub assume_specification[ serde_json::Value::as_bool ](v: &Value) -> (r: Option<bool>)
    ensures
        r == flag_of(Some(json_model(*v))),
;

/// `as_u64` gives the number where the value is a non-negative integer that
/// fits 64 bits, and `None` for other numbers and for anything else.
pub assume_specification[ serde_json::Value::as_u64 ](v: &Value) -> (r: Option<u64>)
    ensures
        r == count_of(Some(json_model(*v))),
;

/// `as_str` gives the text of a string and `None` for anything else.
pub assume_specification<'a>[ serde_json::Value::as_str ](v: &'a Value) -> (r: Option<&'a str>)
    ensures
        match r {
            Some(text) => text_of(Some(json_model(*v))) == Some(text@),
            None => text_of(Some(json_model(*v))) is None,
        },
;

/// `as_array` gives the elements of an array, in order, and `None` for
/// anything else.
pub assume_specification<'a>[ serde_json::Value::as_array ](v: &'a Value) -> (r: Option<
    &'a Vec<Value>,
>)
    ensures
        match r {
            Some(items) => items_of(Some(json_model(*v))) == Some(models(items@)),
            None => items_of(Some(json_model(*v))) is None,
        },
;

/// `as_object` gives the map of an object and `None` for anything else.
pub assume_specification<'a>[ serde_json::Value::as_object ](v: &'a Value) -> (r: Option<
    &'a serde_json::Map<String, Value>,
>)
    ensures
        match r {
            Some(map) => members_of(Some(json_model(*v))) == Some(json_members(*map)),
            None => members_of(Some(json_model(*v))) is None,
        },
;

/// `serde_json::Map::iter`, collected: every member of the map once, as a
/// key with its value. The order in which they come is left open.
#[verifier::external_body]
pub(crate) fn map_entries<'a>(map: &'a serde_json::Map<String, Value>) -> (r: Vec<
    (&'a String, &'a Value),
>)
    ensures
        forall|i: int|
            0 <= i < r@.len() ==> json_members(*map).dom().contains((#[trigger] r@[i]).0@)
                && json_members(*map)[r@[i].0@] == json_model(*r@[i].1),
        forall|i: int, j: int| 0 <= i < j < r@.len() ==> (#[trigger] r@[i]).0@ != (#[trigger] r@[j]).0@,
        forall|key: Seq<char>| #[trigger]
            json_members(*map).dom().contains(key) ==> exists|i: int|
                0 <= i < r@.len() && (#[trigger] r@[i]).0@ == key,
{
    map.iter().collect()
}

/// `serde_json::from_str` for a `Value`: the document that the text holds, or
/// an error where the text is not one JSON document. The same text always
/// gives the same answer.
#[verifier::external_body]
pub(crate) fn parse_value(text: &str) -> (r: Result<Value, serde_json::Error>)
    ensures
        match r {
            Ok(v) => json_parse(text@) == Some(json_model(v)),
            Err(_) => json_parse(text@) is None,
        },
{
    serde_json::from_str(text)
}

/// `serde_json::to_string` for a `Value`: the value as compact JSON text, or
/// an error where it cannot be written. The same value always gives the same
/// text. The writer goes as deep as the value is nested; of a value nested so
/// deep that the stack does not hold it, which no parse gives, nothing is
/// claimed.
#[verifier::external_body]
pub(crate) fn write_value(v: &Value) -> (r: Result<String, serde_json::Error>)
    ensures
        match r {
            Ok(text) => json_text(*v) == Some(text@),
            Err(_) => json_text(*v) is None,
        },
{
    serde_json::to_string(v)
}

/// What `serde_json::Error` prints of itself. Nothing is claimed of the text.
#[verifier::external_body]
pub(crate) fn error_text(e: &serde_json::Error) -> String {
    e.to_string()
}

/// The text of the member under `key`, where there is one and it is a string.
pub fn text_member(v: &Value, key: &str) -> (r: Option<String>)
    ensures
        opt_text(r) == text_of(json_model(*v).member(key@)),
{
    match value_get(v, key) {
        Some(m) => match m.as_str() {
            Some(text) => Some(text.to_owned()),
            None => None,
        },
        None => None,
    }
}

/// The truth value of the member under `key`, where there is one and it is a
/// boolean.
pub fn flag_member(v: &Value, key: &str) -> (r: Option<bool>)
    ensures
        r == flag_of(json_model(*v).member(key@)),
{
    match value_get(v, key) {
        Some(m) => m.as_bool(),
        None => None,
    }
}

/// The count in the member under `key`, where there is one and it is a
/// non-negative integer.
pub fn count_member(v: &Value, key: &str) -> (r: Option<u64>)
    ensures
        r == count_of(json_model(*v).member(key@)),
{
    match value_get(v, key) {
        Some(m) => m.as_u64(),
        None => None,
    }
}

/// The member under `key`, or where the document has none there, the member
/// under `legacy`.
pub fn aliased_member<'a>(v: &'a Value, key: &str, legacy: &str) -> (r: Option<&'a Value>)
    ensures
        match r {
            Some(m) => first_present(json_model(*v).member(key@), json_model(*v).member(legacy@))
                == Some(json_model(*m)),
            None => first_present(json_model(*v).member(key@), json_model(*v).member(legacy@))
                is None,
        },
{
    match value_get(v, key) {
        Some(m) => Some(m),
        None => value_get(v, legacy),
    }
}

/// The text of the member under `key`, or under `legacy` where the document
/// has nothing under `key`; where the member found is a string.
pub fn aliased_text(v: &Value, key: &str, legacy: &str) -> (r: Option<String>)
    ensures
        opt_text(r) == text_of(
            first_present(json_model(*v).member(key@), json_model(*v).member(legacy@)),
        ),
{
    match aliased_member(v, key, legacy) {
        Some(m) => match m.as_str() {
            Some(text) => Some(text.to_owned()),
            None => None,
        },
        None => None,
    }
}

/// The text of the member under `key`, or `fallback` where the document has
/// no string there.
pub fn text_or_default(v: &Value, key: &str, fallback: &str) -> (r: String)
    ensures
        r@ == text_or(json_model(*v).member(key@), fallback@),
{
    match text_member(v, key) {
        Some(text) => text,
        None => fallback.to_owned(),
    }
}

/// The truth value of the member under `key`, or `fallback` where the
/// document has no boolean there.
pub fn flag_or_default(v: &Value, key: &str, fallback: bool) -> (r: bool)
    ensures
        r == flag_or(json_model(*v).member(key@), fallback),
{
    match flag_member(v, key) {
        Some(flag) => flag,
        None => fallback,
    }
}

/// The count in the member under `key`, or zero where the document has no
/// non-negative integer there.
pub fn count_or_zero_member(v: &Value, key: &str) -> (r: u64)
    ensures
        r == count_or_zero(json_model(*v).member(key@)),
{
    match count_member(v, key) {
        Some(count) => count,
        None => 0,
    }
}

/// The count in the member under `key`, or under `legacy` where the document
/// has nothing under `key`; zero where the member found is no non-negative
/// integer.
pub fn aliased_count_or_zero(v: &Value, key: &str, legacy: &str) -> (r: u64)
    ensures
        r == count_or_zero(
            first_present(json_model(*v).member(key@), json_model(*v).member(legacy@)),
        ),
{
    match aliased_member(v, key, legacy) {
        Some(m) => match m.as_u64() {
            Some(count) => count,
            None => 0,
        },
        None => 0,
    }
}

} // verus!
