//! The structured side of a log line: decoding a line as JSON and
//! looking usage headers up in the decoded record.
//!
//! The decoded record is carried as an opaque `serde_json::Value`; all
//! the tracker ever reads of it is its string-valued fields, named by
//! `json_str_fields`.

use vstd::prelude::*;

verus! {

#[verifier::external_type_specification]
#[verifier::external_body]
pub struct ExValue(serde_json::Value);

/// The string-valued fields of a decoded record: for a JSON object, the
/// map from each field name to its text, restricted to fields whose
/// value is a JSON string. The tracker reads the record only through
/// `get_str_field`, whose answers this map gives.
pub uninterp spec fn json_str_fields(v: serde_json::Value) -> Map<Seq<char>, Seq<char>>;

/// Whether `text` is a well-formed JSON document, i.e. whether
/// `serde_json::from_str::<Value>` accepts it.
pub uninterp spec fn is_structured(text: Seq<char>) -> bool;

/// The string-valued fields of the record that well-formed JSON text
/// decodes to. Meaningful only when `is_structured(text)` holds.
pub uninterp spec fn fields_of(text: Seq<char>) -> Map<Seq<char>, Seq<char>>;

/// Relies on serde_json::from_str::<Value>: it returns `Ok` exactly for
/// well-formed JSON text, the decoded value is a function of the text
/// alone, and its string-valued fields are those of the document.
#[verifier::external_body]
pub(crate) fn decode_structured(text: &str) -> (r: Option<serde_json::Value>)
    ensures
        r is Some <==> is_structured(text@),
        r matches Some(v) ==> json_str_fields(v) == fields_of(text@),
{
    serde_json::from_str(text).ok()
}

/// Relies on serde_json::Value::get and Value::as_str: `get` looks a
/// field up by name in a JSON object (`None` for non-objects and absent
/// names), and `as_str` returns the field's text exactly when the field
/// holds a JSON string.
#[verifier::external_body]
pub(crate) fn get_str_field(v: &serde_json::Value, name: &str) -> (r: Option<String>)
    ensures
        match r {
            Some(s) => json_str_fields(*v).contains_key(name@) && s@ == json_str_fields(
                *v,
            ).index(name@),
            None => !json_str_fields(*v).contains_key(name@),
        },
{
    match v.get(name) {
        Some(field) => match field.as_str() {
            Some(s) => Some(s.to_string()),
            None => None,
        },
        None => None,
    }
}

} // verus!
