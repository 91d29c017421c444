//! Typed members of JSON objects: strings, byte arrays and optional strings
//! under a key, read and written the same way by every message shape.

use crate::json::{
    array, as_items, as_text, as_unsigned, is_null, json_of, json_of_all, member, null, text,
    unsigned, Json,
};
use vstd::prelude::*;

verus! {

/// The member of an object under `key`, where `doc` is an object that has one.
pub open spec fn member_of(doc: Json, key: Seq<char>) -> Option<Json> {
    match doc {
        Json::Object(members) => if members.contains_key(key) {
            Some(members[key])
        } else {
            None
        },
        _ => None,
    }
}

/// The string under `key`, where there is one.
pub open spec fn string_member(doc: Json, key: Seq<char>) -> Option<Seq<char>> {
    match member_of(doc, key) {
        Some(Json::String(s)) => Some(s),
        _ => None,
    }
}

/// The optional string under `key`: absent where the object has no such
/// member or holds `null` there. `None` where `doc` holds anything else under
/// `key`.
pub open spec fn optional_string_member(doc: Json, key: Seq<char>) -> Option<Option<Seq<char>>> {
    match member_of(doc, key) {
        None => Some(None),
        Some(Json::Null) => Some(None),
        Some(Json::String(s)) => Some(Some(s)),
        _ => None,
    }
}

/// Whether a document is a whole number that fits a byte.
pub open spec fn is_byte(doc: Json) -> bool {
    doc matches Json::Unsigned(n) && n <= 255
}

/// The byte that a document stands for.
pub open spec fn byte_of(doc: Json) -> u8
    recommends
        is_byte(doc),
{
    doc->Unsigned_0 as u8
}

/// The bytes that an array's items stand for, where each item is a whole
/// number from 0 to 255.
pub open spec fn bytes_of_items(items: Seq<Json>) -> Option<Seq<u8>> {
    if forall|i: int| 0 <= i < items.len() ==> is_byte(#[trigger] items[i]) {
        Some(items.map_values(|d: Json| byte_of(d)))
    } else {
        None
    }
}

/// The bytes that a document stands for, where it is an array of whole
/// numbers from 0 to 255.
pub open spec fn bytes_of(doc: Json) -> Option<Seq<u8>> {
    match doc {
        Json::Array(items) => bytes_of_items(items),
        _ => None,
    }
}

/// The byte array under `key`, where there is one.
pub open spec fn bytes_member(doc: Json, key: Seq<char>) -> Option<Seq<u8>> {
    match member_of(doc, key) {
        Some(d) => bytes_of(d),
        None => None,
    }
}

/// The document of a byte array: an array of whole numbers.
pub open spec fn bytes_document(bytes: Seq<u8>) -> Json {
    Json::Array(bytes.map_values(|b: u8| Json::Unsigned(b as u64)))
}

/// The document of an optional string: the string, or `null`.
pub open spec fn optional_string_document(s: Option<Seq<char>>) -> Json {
    match s {
        Some(s) => Json::String(s),
        None => Json::Null,
    }
}

/// The view of an optional string.
pub open spec fn string_view(r: Option<String>) -> Option<Seq<char>> {
    match r {
        Some(s) => Some(s@),
        None => None,
    }
}

/// The view of optional bytes.
pub open spec fn optional_bytes_view(r: Option<Vec<u8>>) -> Option<Seq<u8>> {
    match r {
        Some(b) => Some(b@),
        None => None,
    }
}

/// The view of an optional string that may itself be missing.
pub open spec fn optional_view(r: Option<Option<String>>) -> Option<Option<Seq<char>>> {
    match r {
        Some(s) => Some(string_view(s)),
        None => None,
    }
}

/// Reading the document of a byte array gives back the bytes.
pub proof fn lemma_bytes_round_trip(bytes: Seq<u8>)
    ensures
        bytes_of(bytes_document(bytes)) == Some(bytes),
{
    let items = bytes.map_values(|b: u8| Json::Unsigned(b as u64));
    assert forall|i: int| 0 <= i < items.len() implies is_byte(#[trigger] items[i]) by {}
    assert(items.map_values(|d: Json| byte_of(d)) =~= bytes);
}

/// The string under `key`.
pub fn read_string(v: &serde_json::Value, key: &str) -> (r: Option<String>)
    ensures
        string_view(r) == string_member(json_of(*v), key@),
{
    match member(v, key) {
        Some(m) => match as_text(m) {
            Some(s) => Some(s.to_owned()),
            None => None,
        },
        None => None,
    }
}

/// The optional string under `key`; the outer `None` says that the object
/// holds something else there.
pub fn read_optional_string(v: &serde_json::Value, key: &str) -> (r: Option<Option<String>>)
    ensures
        optional_view(r) == optional_string_member(json_of(*v), key@),
{
    match member(v, key) {
        Some(m) => {
            if is_null(m) {
                Some(None)
            } else {
                match as_text(m) {
                    Some(s) => Some(Some(s.to_owned())),
                    None => None,
                }
            }
        },
        None => Some(None),
    }
}

/// The bytes that a document stands for.
pub fn bytes_from_value(v: &serde_json::Value) -> (r: Option<Vec<u8>>)
    ensures
        optional_bytes_view(r) == bytes_of(json_of(*v)),
{
    let items = match as_items(v) {
        Some(items) => items,
        None => {
            return None;
        },
    };
    let ghost docs = json_of_all(items@);
    let mut bytes: Vec<u8> = Vec::new();
    let mut i: usize = 0;
    while i < items.len()
        invariant
            i <= items.len(),
            docs == json_of_all(items@),
            json_of(*v) == Json::Array(docs),
            bytes@.len() == i,
            forall|k: int| 0 <= k < i ==> is_byte(#[trigger] docs[k]) && bytes@[k] == byte_of(docs[k]),
        decreases items.len() - i,
    {
        match as_unsigned(&items[i]) {
            Some(n) => {
                if n > 255 {
                    assert(!is_byte(docs[i as int]));
                    return None;
                }
                bytes.push(n as u8);
            },
            None => {
                assert(!is_byte(docs[i as int]));
                return None;
            },
        }
        i = i + 1;
    }
    assert(bytes@ =~= docs.map_values(|d: Json| byte_of(d)));
    Some(bytes)
}

/// The byte array under `key`.
pub fn read_bytes(v: &serde_json::Value, key: &str) -> (r: Option<Vec<u8>>)
    ensures
        optional_bytes_view(r) == bytes_member(json_of(*v), key@),
{
    match member(v, key) {
        Some(m) => bytes_from_value(m),
        None => None,
    }
}

/// The document of a byte array.
pub fn bytes_to_value(bytes: &[u8]) -> (v: serde_json::Value)
    ensures
        json_of(v) == bytes_document(bytes@),
{
    let mut items: Vec<serde_json::Value> = Vec::new();
    let mut i: usize = 0;
    while i < bytes.len()
        invariant
            i <= bytes.len(),
            items@.len() == i,
            forall|k: int| 0 <= k < i ==> json_of(#[trigger] items@[k]) == Json::Unsigned(bytes@[k] as u64),
        decreases bytes.len() - i,
    {
        items.push(unsigned(bytes[i] as u64));
        i = i + 1;
    }
    assert(json_of_all(items@) =~= bytes@.map_values(|b: u8| Json::Unsigned(b as u64)));
    array(items)
}

/// The document of an optional string.
pub fn optional_string_to_value(s: &Option<String>) -> (v: serde_json::Value)
    ensures
        json_of(v) == optional_string_document(string_view(*s)),
{
    match s {
        Some(s) => text(s.clone()),
        None => null(),
    }
}

} // verus!
