//! The JSON document as the record's logic sees it: a map from keys to
//! field values, parsed by serde_json.
use vstd::prelude::*;

verus! {

#[verifier::external_type_specification]
#[verifier::external_body]
pub struct ExJsonValue(serde_json::Value);

#[verifier::external_type_specification]
#[verifier::external_body]
#[verifier::reject_recursive_types(K)]
#[verifier::reject_recursive_types(V)]
pub struct ExJsonMap<K, V>(serde_json::Map<K, V>);

/// What one field of a JSON object holds, one level deep.
#[derive(Debug, Clone)]
pub enum FieldValue {
    Null,
    Bool(bool),
    /// A number; `Some` when it is an integer that fits in `i64`.
    Number(Option<i64>),
    Str(String),
    Array,
    Object,
}

/// The fields of a parsed JSON object, each key mapped to what it holds.
pub uninterp spec fn object_fields(m: serde_json::Map<String, serde_json::Value>) -> Map<
    Seq<char>,
    FieldValue,
>;

/// The outcome of parsing a text as a JSON object: its fields, or the
/// parser's description of the failure.
pub uninterp spec fn parsed_object(text: Seq<char>) -> Result<Map<Seq<char>, FieldValue>, Seq<char>>;

/// The field stored under `key`, if any.
pub open spec fn field_at(fields: Map<Seq<char>, FieldValue>, key: Seq<char>) -> Option<FieldValue> {
    if fields.contains_key(key) {
        Some(fields[key])
    } else {
        None
    }
}

/// Relies on `serde_json::from_str` into a `serde_json::Map`: it parses the
/// text as one JSON object and fails, with an error whose text describes the
/// cause, on malformed JSON or on a document that is not an object. The
/// outcome depends on the text alone.
#[verifier::external_body]
pub(crate) fn parse_object(text: &str) -> (r: Result<serde_json::Map<String, serde_json::Value>, String>)
    ensures
        match r {
            Ok(m) => parsed_object(text@) == Ok::<Map<Seq<char>, FieldValue>, Seq<char>>(object_fields(m)),
            Err(e) => parsed_object(text@) == Err::<Map<Seq<char>, FieldValue>, Seq<char>>(e@),
        },
{
    serde_json::from_str::<serde_json::Map<String, serde_json::Value>>(text).map_err(|e| e.to_string())
}

/// Relies on `serde_json::Map::get`, which returns the value stored under the
/// key, and on `serde_json::Number::as_i64`, which gives an integer number
/// that fits in `i64`. The value found is handed out as a `FieldValue`.
#[verifier::external_body]
pub(crate) fn object_field(m: &serde_json::Map<String, serde_json::Value>, key: &str) -> (r: Option<FieldValue>)
    ensures
        r == field_at(object_fields(*m), key@),
{
    m.get(key).map(|v| match v {
        serde_json::Value::Null => FieldValue::Null,
        serde_json::Value::Bool(b) => FieldValue::Bool(*b),
        serde_json::Value::Number(n) => FieldValue::Number(n.as_i64()),
        serde_json::Value::String(s) => FieldValue::Str(s.clone()),
        serde_json::Value::Array(_) => FieldValue::Array,
        serde_json::Value::Object(_) => FieldValue::Object,
    })
}

} // verus!
