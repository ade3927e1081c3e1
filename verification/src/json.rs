//! JSON documents, as `serde_json` holds them, and what the library states of them.

use serde_json::Value;
use vstd::prelude::*;

verus! {

/// `serde_json::Value`: a JSON document. Its content is known through
/// `json_of` alone.
#[verifier::external_type_specification]
#[verifier::external_body]
pub struct ExValue(serde_json::Value);

/// What a JSON number holds: an integer of 64 bits, or the bits of a finite
/// binary64 value.
#[derive(Clone, Copy, Debug, PartialEq, Eq, Structural)]
pub enum JsonNumber {
    /// An integer from 0 on.
    Unsigned(u64),
    /// An integer below 0.
    Negative(i64),
    /// A number written with a fraction or an exponent, or too large for an
    /// integer of 64 bits: the bits of its binary64 value.
    Binary64(u64),
}

/// The mathematical content of a JSON document.
pub enum Json {
    Null,
    Bool(bool),
    Number(JsonNumber),
    Text(Seq<char>),
    Array(Seq<Json>),
    Object(Map<Seq<char>, Json>),
}

/// The content of a `serde_json::Value`.
pub uninterp spec fn json_of(value: Value) -> Json;

/// What `serde_json::from_slice` makes of a text: the document, or `None`
/// where the text is not JSON.
pub uninterp spec fn json_parsed(text: Seq<u8>) -> Option<Json>;

/// The text that `serde_json::to_string` writes for a document: one line,
/// the keys of each object in ascending order.
pub uninterp spec fn json_compact(document: Json) -> Seq<char>;

/// The text that `serde_json::to_string_pretty` writes for a document: one
/// entry to a line, indented by two spaces for each level.
pub uninterp spec fn json_pretty(document: Json) -> Seq<char>;

/// The entry of an object under `key`, where the document is an object that
/// has one.
pub open spec fn json_member(document: Json, key: Seq<char>) -> Option<Json> {
    match document {
        Json::Object(entries) => if entries.contains_key(key) {
            Some(entries[key])
        } else {
            None
        },
        _ => None,
    }
}

/// The number that a document is, where it is one.
pub open spec fn json_number(document: Json) -> Option<JsonNumber> {
    match document {
        Json::Number(n) => Some(n),
        _ => None,
    }
}

/// `serde_json::from_slice`, at type `Value`: the result is the document that
/// the parser reads from `text`, and `None` where it rejects the text.
#[verifier::external_body]
pub(crate) fn parse(text: &[u8]) -> (r: Option<Value>)
    ensures
        r matches Some(v) ==> json_parsed(text@) == Some(json_of(v)),
        r is None ==> json_parsed(text@) is None,
{
    serde_json::from_slice::<Value>(text).ok()
}

/// `Value::clone`: the copy holds the same document.
pub assume_specification[ <Value as Clone>::clone ](value: &Value) -> (r: Value)
    ensures
        json_of(r) == json_of(*value),
;

/// `Value::is_object`: whether the document is an object.
#[verifier::external_body]
pub(crate) fn is_object(value: &Value) -> (r: bool)
    ensures
        r == (json_of(*value) is Object),
{
    value.is_object()
}

/// `Value::get` with a string index: the entry under `key` where the document
/// is an object that has one, `None` otherwise.
#[verifier::external_body]
pub(crate) fn member<'a>(value: &'a Value, key: &str) -> (r: Option<&'a Value>)
    ensures
        r matches Some(entry) ==> json_member(json_of(*value), key@) == Some(json_of(*entry)),
        r is None ==> json_member(json_of(*value), key@) is None,
{
    value.get(key)
}

/// `Value::as_str`: the text of a document that is a string, `None` otherwise.
#[verifier::external_body]
pub(crate) fn text_of<'a>(value: &'a Value) -> (r: Option<&'a str>)
    ensures
        r matches Some(text) ==> json_of(*value) == Json::Text(text@),
        r is None ==> !(json_of(*value) is Text),
{
    value.as_str()
}

/// `Value::as_u64`: the number where the document is an integer from 0 on,
/// `None` otherwise.
#[verifier::external_body]
pub(crate) fn unsigned_of(value: &Value) -> (r: Option<u64>)
    ensures
        r == (match json_of(*value) {
            Json::Number(JsonNumber::Unsigned(n)) => Some(n),
            _ => None,
        }),
{
    value.as_u64()
}

/// `Value::as_i64`: the number where the document is an integer that fits
/// `i64`, `None` otherwise.
#[verifier::external_body]
pub(crate) fn signed_of(value: &Value) -> (r: Option<i64>)
    ensures
        r == (match json_of(*value) {
            Json::Number(JsonNumber::Negative(n)) => Some(n),
            Json::Number(JsonNumber::Unsigned(n)) => if n <= i64::MAX {
                Some(n as i64)
            } else {
                None
            },
            _ => None,
        }),
{
    value.as_i64()
}

/// `Value::as_f64`, handed on as the bits of the float: for a number that is
/// held as a binary64 value these are its bits; for an integer they are the
/// bits of some binary64 value; for any other document the result is `None`.
#[verifier::external_body]
pub(crate) fn binary64_of(value: &Value) -> (r: Option<u64>)
    ensures
        match json_of(*value) {
            Json::Number(JsonNumber::Binary64(bits)) => r == Some(bits),
            Json::Number(_) => r is Some,
            _ => r is None,
        },
{
    value.as_f64().map(|x| x.to_bits())
}

/// `serde_json::to_string`, at type `Value`: the document on one line.
#[verifier::external_body]
pub(crate) fn compact_text(value: &Value) -> (r: String)
    ensures
        r@ == json_compact(json_of(*value)),
{
    serde_json::to_string(value).unwrap_or_default()
}

/// `serde_json::to_string_pretty`, at type `Value`: the document over
/// several indented lines.
#[verifier::external_body]
pub(crate) fn pretty_text(value: &Value) -> (r: String)
    ensures
        r@ == json_pretty(json_of(*value)),
{
    serde_json::to_string_pretty(value).unwrap_or_default()
}

/// `Value::String`: the document that is the string `text`.
#[verifier::external_body]
pub(crate) fn text_value(text: &str) -> (r: Value)
    ensures
        json_of(r) == Json::Text(text@),
{
    Value::String(text.to_owned())
}

/// The number that a document is, where it is one.
pub fn number_of(value: &Value) -> (r: Option<JsonNumber>)
    ensures
        r == json_number(json_of(*value)),
{
    match unsigned_of(value) {
        Some(n) => Some(JsonNumber::Unsigned(n)),
        None => match signed_of(value) {
            Some(n) => Some(JsonNumber::Negative(n)),
            None => match binary64_of(value) {
                Some(bits) => Some(JsonNumber::Binary64(bits)),
                None => None,
            },
        },
    }
}

/// The document that `text` holds, where it holds a JSON object.
pub fn parse_object(text: &[u8]) -> (r: Option<Value>)
    ensures
        r matches Some(v) ==> json_parsed(text@) == Some(json_of(v)) && json_of(v) is Object,
        r is None ==> !(json_parsed(text@) matches Some(Json::Object(_))),
{
    match parse(text) {
        Some(v) => if is_object(&v) {
            Some(v)
        } else {
            None
        },
        None => None,
    }
}

} // verus!
