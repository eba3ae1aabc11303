//! JSON documents, built and printed by `serde_json`.
//!
//! The library decides what a document holds; `serde_json` owns the text
//! form. A document here is a `serde_json::Value`, which is opaque to the
//! verifier: [`json_of`] names what a value holds, as a [`Json`] tree, and
//! [`pretty_text`] names the text that `serde_json` prints for a tree.

use vstd::prelude::*;

verus! {

/// `serde_json::Value`, carried through verified code as an opaque value.
#[verifier::external_type_specification]
#[verifier::external_body]
pub struct ExValue(serde_json::Value);

/// What a JSON document holds. An object keeps its members in the order in
/// which they were given.
pub enum Json {
    Null,
    Number(int),
    Text(Seq<char>),
    Array(Seq<Json>),
    Object(Seq<(Seq<char>, Json)>),
}

/// The document that a `serde_json::Value` holds.
pub uninterp spec fn json_of(value: serde_json::Value) -> Json;

/// The text that `serde_json::to_string_pretty` gives for a document.
pub uninterp spec fn pretty_text(doc: Json) -> Seq<char>;

/// The documents that a list of values holds, in order.
pub open spec fn items_of(values: Seq<serde_json::Value>) -> Seq<Json> {
    values.map_values(|value: serde_json::Value| json_of(value))
}

/// The members that a list of keyed values holds, in order.
pub open spec fn members_of(fields: Seq<(String, serde_json::Value)>) -> Seq<(Seq<char>, Json)> {
    fields.map_values(|field: (String, serde_json::Value)| (field.0@, json_of(field.1)))
}

/// No two fields have the same key.
pub open spec fn distinct_keys(fields: Seq<(String, serde_json::Value)>) -> bool {
    forall|i: int, j: int|
        0 <= i < j < fields.len() ==> (#[trigger] fields[i]).0@ != (#[trigger] fields[j]).0@
}

/// `serde_json::Value::Null`: the null document.
#[verifier::external_body]
pub(crate) fn json_null() -> (value: serde_json::Value)
    ensures
        json_of(value) == Json::Null,
{
    serde_json::Value::Null
}

/// `serde_json::Value::from` on an `i32`: the number with that value.
#[verifier::external_body]
pub(crate) fn json_number(n: i32) -> (value: serde_json::Value)
    ensures
        json_of(value) == Json::Number(n as int),
{
    serde_json::Value::from(n)
}

/// `serde_json::Value::from` on a `&str`: the string with that text.
#[verifier::external_body]
pub(crate) fn json_text(text: &str) -> (value: serde_json::Value)
    ensures
        json_of(value) == Json::Text(text@),
{
    serde_json::Value::from(text)
}

/// `serde_json::Value::Array`: the array of the given documents, in order.
#[verifier::external_body]
pub(crate) fn json_array(items: Vec<serde_json::Value>) -> (value: serde_json::Value)
    ensures
        json_of(value) == Json::Array(items_of(items@)),
{
    serde_json::Value::Array(items)
}

/// `serde_json::Map::from_iter` and `serde_json::Value::Object`: the object
/// with the given members. With the crate's `preserve_order` feature the map
/// keeps the order of insertion, so for distinct keys the members stand in
/// the order given.
#[verifier::external_body]
pub(crate) fn json_object(fields: Vec<(String, serde_json::Value)>) -> (value: serde_json::Value)
    requires
        distinct_keys(fields@),
    ensures
        json_of(value) == Json::Object(members_of(fields@)),
{
    serde_json::Value::Object(serde_json::Map::from_iter(fields))
}

/// `serde_json::to_string_pretty` on a `Value`: the pretty-printed text of
/// the document it holds. Printing a `Value` into memory has no failing step:
/// the two causes of failure that `serde_json` documents, a `Serialize` impl
/// that fails and a map with keys that are no strings, cannot arise for a
/// `Value`.
#[verifier::external_body]
pub(crate) fn json_pretty(value: &serde_json::Value) -> (text: String)
    ensures
        text@ == pretty_text(json_of(*value)),
{
    serde_json::to_string_pretty(value).unwrap_or_default()
}

} // verus!
