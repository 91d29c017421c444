//! JSON documents. Parsing and printing are `serde_json`'s work; this module
//! says what a `serde_json::Value` holds, so that the code that builds and
//! reads documents can be verified against it.
//!
//! Nothing below is proved: each function here only calls into `serde_json`,
//! and its contract states what that crate's source shows of the call.

use vstd::prelude::*;

verus! {

/// `serde_json::Value`, a parsed JSON document.
#[verifier::external_type_specification]
#[verifier::external_body]
pub struct ExValue(serde_json::Value);

/// `serde_json::Error`, the reason why a text is not JSON.
#[verifier::external_type_specification]
#[verifier::external_body]
pub struct ExError(serde_json::Error);

/// What a JSON document holds.
pub enum Json {
    /// `null`.
    Null,
    /// `true` or `false`.
    Bool(bool),
    /// A whole number from 0 to `u64::MAX`.
    Unsigned(u64),
    /// A whole number below 0.
    Negative(i64),
    /// Any other number, by the bits of its 64-bit floating-point form.
    Float(u64),
    /// A string.
    String(Seq<char>),
    /// An array, in order.
    Array(Seq<Json>),
    /// An object, by key.
    Object(Map<Seq<char>, Json>),
}

/// What the document `v` holds.
pub uninterp spec fn json_of(v: serde_json::Value) -> Json;

/// What `serde_json::from_str` makes of `text`: the document it holds, or
/// `None` where `text` is not exactly one JSON value.
pub uninterp spec fn json_parse(text: Seq<char>) -> Option<Json>;

/// The compact text that `serde_json` prints for a document.
pub uninterp spec fn json_text(doc: Json) -> Seq<char>;

/// What each document of a sequence holds.
pub open spec fn json_of_all(items: Seq<serde_json::Value>) -> Seq<Json> {
    items.map_values(|v: serde_json::Value| json_of(v))
}

/// Calls `serde_json::from_str` for a `Value`. The contract names the outcome:
/// on success the document holds what `json_parse` says of the text, and the
/// call fails exactly where `json_parse` is `None`.
#[verifier::external_body]
pub(crate) fn parse(text: &str) -> (r: Result<serde_json::Value, serde_json::Error>)
    ensures
        match r {
            Ok(v) => json_parse(text@) == Some(json_of(v)),
            Err(_) => json_parse(text@) is None,
        },
{
    serde_json::from_str::<serde_json::Value>(text)
}

/// Prints a document in compact form through `Value`'s `Display`, which
/// serialises into the string and cannot fail for a `Value`: its keys are
/// strings and its numbers are finite. The contract names the text.
#[verifier::external_body]
pub(crate) fn render(v: &serde_json::Value) -> (text: String)
    ensures
        text@ == json_text(json_of(*v)),
{
    v.to_string()
}

/// Calls `Value::get` with a string key: the member under `key` where `v` is
/// an object that has one, `None` for any other document.
#[verifier::external_body]
pub(crate) fn member<'a>(v: &'a serde_json::Value, key: &str) -> (r: Option<&'a serde_json::Value>)
    ensures
        match r {
            Some(m) => json_of(*v) matches Json::Object(members) && members.contains_key(key@)
                && json_of(*m) == members[key@],
            None => !(json_of(*v) matches Json::Object(members) && members.contains_key(key@)),
        },
{
    v.get(key)
}

/// Calls `Value::as_u64`: the number where `v` is a whole number from 0 to
/// `u64::MAX`, `None` for a negative or fractional number and for anything
/// that is not a number.
#[verifier::external_body]
pub(crate) fn as_unsigned(v: &serde_json::Value) -> (r: Option<u64>)
    ensures
        r == (match json_of(*v) {
            Json::Unsigned(n) => Some(n),
            _ => None::<u64>,
        }),
{
    v.as_u64()
}

/// Calls `Value::as_str`: the string where `v` is one, `None` otherwise.
#[verifier::external_body]
pub(crate) fn as_text<'a>(v: &'a serde_json::Value) -> (r: Option<&'a str>)
    ensures
        match r {
            Some(s) => json_of(*v) == Json::String(s@),
            None => !(json_of(*v) is String),
        },
{
    v.as_str()
}

/// Calls `Value::as_array`: the items where `v` is an array, `None` otherwise.
#[verifier::external_body]
pub(crate) fn as_items<'a>(v: &'a serde_json::Value) -> (r: Option<&'a Vec<serde_json::Value>>)
    ensures
        match r {
            Some(items) => json_of(*v) == Json::Array(json_of_all(items@)),
            None => !(json_of(*v) is Array),
        },
{
    v.as_array()
}

/// Calls `Value::clone`, which `serde_json` derives: the copy holds what `v`
/// holds.
#[verifier::external_body]
pub(crate) fn duplicate(v: &serde_json::Value) -> (copy: serde_json::Value)
    ensures
        json_of(copy) == json_of(*v),
{
    v.clone()
}

/// Calls `Value::is_null`.
#[verifier::external_body]
pub(crate) fn is_null(v: &serde_json::Value) -> (r: bool)
    ensures
        r == (json_of(*v) is Null),
{
    v.is_null()
}

/// Makes the document `null`, the variant `Value::Null`.
#[verifier::external_body]
pub(crate) fn null() -> (v: serde_json::Value)
    ensures
        json_of(v) == Json::Null,
{
    serde_json::Value::Null
}

/// Calls `Value::from` on a `u64`, which gives a whole number.
#[verifier::external_body]
pub(crate) fn unsigned(n: u64) -> (v: serde_json::Value)
    ensures
        json_of(v) == Json::Unsigned(n),
{
    serde_json::Value::from(n)
}

/// Calls `Value::from` on a `String`, which gives a JSON string.
#[verifier::external_body]
pub(crate) fn text(s: String) -> (v: serde_json::Value)
    ensures
        json_of(v) == Json::String(s@),
{
    serde_json::Value::from(s)
}

/// Calls `Value::from` on a `Vec<Value>`, which gives an array of the items in
/// their order.
#[verifier::external_body]
pub(crate) fn array(items: Vec<serde_json::Value>) -> (v: serde_json::Value)
    ensures
        json_of(v) == Json::Array(json_of_all(items@)),
{
    serde_json::Value::from(items)
}

/// Makes an object without members from `serde_json::Map::new`.
#[verifier::external_body]
pub(crate) fn empty_object() -> (v: serde_json::Value)
    ensures
        json_of(v) == Json::Object(Map::<Seq<char>, Json>::empty()),
{
    serde_json::Value::Object(serde_json::Map::new())
}

/// Calls `Map::insert` on the members of an object: afterwards the object
/// holds `value` under `key`, in place of what it held there, and every other
/// member as before.
#[verifier::external_body]
pub(crate) fn set_member(object: &mut serde_json::Value, key: String, value: serde_json::Value)
    requires
        json_of(*old(object)) is Object,
    ensures
        json_of(*final(object)) == Json::Object(
            json_of(*old(object))->Object_0.insert(key@, json_of(value)),
        ),
{
    if let Some(members) = object.as_object_mut() {
        members.insert(key, value);
    }
}

} // verus!
