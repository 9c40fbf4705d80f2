//! Reading and writing JSON text with serde_json.
//!
//! serde_json parses into and serializes from its own `Value`, which matches
//! `JsonValue` variant for variant: numbers keep their decimal text, and an
//! object's members come in serde_json's key order (sorted, one member per
//! key).
use vstd::prelude::*;

use crate::json::JsonValue;

verus! {

#[verifier::external_type_specification]
#[verifier::external_body]
pub struct ExSerdeJsonValue(serde_json::Value);

/// What `serde_json::from_slice::<serde_json::Value>` gives for `bytes`, as a
/// `JsonValue`, or the error's message.
pub uninterp spec fn parsed_json(bytes: Seq<u8>) -> Result<JsonValue, Seq<char>>;

/// The bytes `serde_json::to_vec` gives for the `serde_json::Value` that
/// matches `value`.
pub uninterp spec fn serialized_json(value: JsonValue) -> Seq<u8>;

/// The text `serde_json::Value`'s `Display` (compact JSON) gives for the value
/// that matches `value`.
pub uninterp spec fn json_display(value: JsonValue) -> Seq<char>;

pub open spec fn json_result_view(r: Result<JsonValue, String>) -> Result<JsonValue, Seq<char>> {
    match r {
        Ok(v) => Ok(v),
        Err(e) => Err(e@),
    }
}

/// Converts a `serde_json::Value` into a `JsonValue`, variant for variant
/// (`Number`'s text by its `Display`).
#[verifier::external_body]
fn from_serde(value: &serde_json::Value) -> JsonValue {
    match value {
        serde_json::Value::Null => JsonValue::Null,
        serde_json::Value::Bool(b) => JsonValue::Bool(*b),
        serde_json::Value::Number(n) => JsonValue::Number(n.to_string()),
        serde_json::Value::String(s) => JsonValue::Str(s.clone()),
        serde_json::Value::Array(items) => JsonValue::Array(items.iter().map(from_serde).collect()),
        serde_json::Value::Object(members) => JsonValue::Object(members.iter().map(|(k, v)| (k.clone(), from_serde(v))).collect()),
    }
}

/// Converts a `JsonValue` into a `serde_json::Value`, variant for variant
/// (a number's text read by `Number`'s `FromStr`, null if it does not read).
#[verifier::external_body]
fn to_serde(value: &JsonValue) -> serde_json::Value {
    match value {
        JsonValue::Null => serde_json::Value::Null,
        JsonValue::Bool(b) => serde_json::Value::Bool(*b),
        JsonValue::Number(text) => match text.parse::<serde_json::Number>() {
            Ok(n) => serde_json::Value::Number(n),
            Err(_) => serde_json::Value::Null,
        },
        JsonValue::Str(s) => serde_json::Value::String(s.clone()),
        JsonValue::Array(items) => serde_json::Value::Array(items.iter().map(to_serde).collect()),
        JsonValue::Object(members) => serde_json::Value::Object(members.iter().map(|(k, v)| (k.clone(), to_serde(v))).collect()),
    }
}

/// Calls `serde_json::from_slice::<serde_json::Value>`; the contract names
/// the parsed value, or the error's message.
#[verifier::external_body]
pub(crate) fn parse_json(bytes: &[u8]) -> (r: Result<JsonValue, String>)
    ensures
        json_result_view(r) == parsed_json(bytes@),
{
    match serde_json::from_slice::<serde_json::Value>(bytes) {
        Ok(value) => Ok(from_serde(&value)),
        Err(error) => Err(error.to_string()),
    }
}

/// Calls `serde_json::to_vec` on the matching `serde_json::Value`; the
/// contract names the bytes. Serializing a `Value` into a vector cannot fail.
#[verifier::external_body]
pub(crate) fn json_bytes(value: &JsonValue) -> (b: Vec<u8>)
    ensures
        b@ == serialized_json(*value),
{
    match serde_json::to_vec(&to_serde(value)) {
        Ok(bytes) => bytes,
        Err(_) => Vec::new(),
    }
}

/// Calls `Display` (`to_string`) on the matching `serde_json::Value`; the
/// contract names the text.
#[verifier::external_body]
pub(crate) fn json_text(value: &JsonValue) -> (t: String)
    ensures
        t@ == json_display(*value),
{
    to_serde(value).to_string()
}

} // verus!
