//! JSON documents as the resolver reads them.
//!
//! Parsing is left to `serde_json`; the tree that comes back is turned into
//! [`JsonValue`], a plain tree that verified code can take apart.

use crate::text::{option_text, same_text};
use vstd::prelude::*;
use vstd::string::*;

verus! {

/// A JSON number, as far as it is an integer: its value as `i64` where it
/// is an integer that fits, and as `u64` where it is one that fits. A number
/// that is no integer has neither.
#[derive(Clone, Copy, Debug)]
pub struct JsonNumber {
    pub signed: Option<i64>,
    pub unsigned: Option<u64>,
}

/// The value of a number that is an integer.
pub open spec fn integer_value(number: JsonNumber) -> Option<int> {
    match number.signed {
        Some(n) => Some(n as int),
        None => match number.unsigned {
            Some(n) => Some(n as int),
            None => None,
        },
    }
}

/// A JSON value.
///
/// An object keeps its members in the order in which `serde_json` yields
/// them, each key once.
#[derive(Debug)]
pub enum JsonValue {
    Null,
    Bool(bool),
    Number(JsonNumber),
    Text(String),
    Array(Vec<JsonValue>),
    Object(Vec<JsonField>),
}

/// One member of a JSON object.
#[derive(Debug)]
pub struct JsonField {
    pub key: String,
    pub value: JsonValue,
}

// ---------------------------------------------------------------------------
// Parsing
// ---------------------------------------------------------------------------

#[verifier::external_type_specification]
#[verifier::external_body]
pub struct ExJsonDocument(serde_json::Value);

/// What `serde_json::from_str` makes of `text`: the parsed document, or `None`
/// where it reports an error.
pub uninterp spec fn json_parsed(text: Seq<char>) -> Option<serde_json::Value>;

/// The tree that a parsed document holds.
pub uninterp spec fn json_tree(document: serde_json::Value) -> JsonValue;

/// The JSON value that `text` writes, or `None` if `text` is not one JSON
/// value.
pub open spec fn json_document(text: Seq<char>) -> Option<JsonValue> {
    match json_parsed(text) {
        Some(document) => Some(json_tree(document)),
        None => None,
    }
}

/// Calls `serde_json::from_str` for a `serde_json::Value`. The contract only
/// names the result: the same text always parses to the same document.
#[verifier::external_body]
fn parse_document(text: &str) -> (parsed: Option<serde_json::Value>)
    ensures
        parsed == json_parsed(text@),
{
    serde_json::from_str::<serde_json::Value>(text).ok()
}

/// Copies a `serde_json::Value` into a [`JsonValue`], variant by variant:
/// numbers through `Number::as_i64` and `Number::as_u64`, object members
/// through `Map::iter`. The contract only names the result.
#[verifier::external_body]
fn tree_of(document: &serde_json::Value) -> (tree: JsonValue)
    ensures
        tree == json_tree(*document),
{
    match document {
        serde_json::Value::Null => JsonValue::Null,
        serde_json::Value::Bool(b) => JsonValue::Bool(*b),
        serde_json::Value::Number(n) => JsonValue::Number(
            JsonNumber { signed: n.as_i64(), unsigned: n.as_u64() },
        ),
        serde_json::Value::String(s) => JsonValue::Text(s.clone()),
        serde_json::Value::Array(items) => JsonValue::Array(items.iter().map(tree_of).collect()),
        serde_json::Value::Object(members) => JsonValue::Object(
            members.iter().map(|(k, v)| JsonField { key: k.clone(), value: tree_of(v) }).collect(),
        ),
    }
}

/// Parses `text` as one JSON value.
pub fn parse_json(text: &str) -> (value: Option<JsonValue>)
    ensures
        value == json_document(text@),
{
    match parse_document(text) {
        Some(document) => Some(tree_of(&document)),
        None => None,
    }
}

// ---------------------------------------------------------------------------
// Reading a value
// ---------------------------------------------------------------------------

/// Index of the first member at or after `i` whose key is `key`, or the
/// number of members.
pub open spec fn member_index_from(fields: Seq<JsonField>, key: Seq<char>, i: int) -> int
    decreases fields.len() - i,
{
    if 0 <= i < fields.len() && fields[i].key@ != key {
        member_index_from(fields, key, i + 1)
    } else {
        i
    }
}

/// The value of the first member of `fields` whose key is `key`.
pub open spec fn member(fields: Seq<JsonField>, key: Seq<char>) -> Option<JsonValue> {
    let i = member_index_from(fields, key, 0);
    if 0 <= i < fields.len() {
        Some(fields[i].value)
    } else {
        None
    }
}

/// The member `key` of `value`, where `value` is an object that has one.
pub open spec fn get(value: JsonValue, key: Seq<char>) -> Option<JsonValue> {
    match value {
        JsonValue::Object(fields) => member(fields@, key),
        _ => None,
    }
}

/// The characters of `value`, where it is a string.
pub open spec fn as_text(value: JsonValue) -> Option<Seq<char>> {
    match value {
        JsonValue::Text(s) => Some(s@),
        _ => None,
    }
}

/// The string that `value` holds under `key`.
pub open spec fn text_at(value: JsonValue, key: Seq<char>) -> Option<Seq<char>> {
    match get(value, key) {
        Some(found) => as_text(found),
        None => None,
    }
}

impl JsonValue {
    /// The member `key` of this value.
    pub fn get(&self, key: &str) -> (found: Option<&JsonValue>)
        ensures
            match found {
                Some(value) => get(*self, key@) == Some(*value),
                None => get(*self, key@) is None,
            },
    {
        match self {
            JsonValue::Object(fields) => {
                let mut i: usize = 0;
                while i < fields.len()
                    invariant
                        i <= fields.len(),
                        *self == JsonValue::Object(*fields),
                        member_index_from(fields@, key@, i as int) == member_index_from(
                            fields@,
                            key@,
                            0,
                        ),
                    decreases fields.len() - i,
                {
                    if same_text(fields[i].key.as_str(), key) {
                        return Some(&fields[i].value);
                    }
                    i += 1;
                }
                None
            },
            _ => None,
        }
    }

    /// The characters of this value, where it is a string.
    pub fn as_str(&self) -> (text: Option<&String>)
        ensures
            match text {
                Some(s) => as_text(*self) == Some(s@),
                None => as_text(*self) is None,
            },
    {
        match self {
            JsonValue::Text(s) => Some(s),
            _ => None,
        }
    }

    /// A copy of the string that this value holds under `key`.
    pub fn text_at(&self, key: &str) -> (text: Option<String>)
        ensures
            option_text(text) == text_at(*self, key@),
    {
        match self.get(key) {
            Some(found) => match found.as_str() {
                Some(s) => Some(s.clone()),
                None => None,
            },
            None => None,
        }
    }
}

} // verus!
