//! Trusted access to `serde_json` for reading remote API responses and for
//! quoting strings into request payloads. Each call's result is a function
//! of its arguments alone, so it is given a name, and the wrappers pin
//! their results to those names; the decision logic that consumes them is
//! verified in the platform modules against the same names.

use vstd::prelude::*;

verus! {

#[verifier::external_type_specification]
#[verifier::external_body]
pub struct ExValue(serde_json::Value);

#[verifier::external_type_specification]
#[verifier::external_body]
pub struct ExJsonError(serde_json::Error);

/// What `serde_json::from_str` yields for a text: the parsed document, or
/// None where the text is not one well-formed JSON document.
pub uninterp spec fn parsed_json(s: Seq<char>) -> Option<serde_json::Value>;

/// What `serde_json::Value::get` with a string index yields: the member of
/// an object under that key, or None where the value is no object or the
/// key is absent.
pub uninterp spec fn member_of(v: serde_json::Value, key: Seq<char>) -> Option<serde_json::Value>;

/// What `serde_json::Value::get` with a usize index yields: the element of
/// an array at that position, or None where the value is no array or the
/// position is out of range.
pub uninterp spec fn element_of(v: serde_json::Value, index: int) -> Option<serde_json::Value>;

/// What `serde_json::Value::as_str` yields: the text of a JSON string
/// value, or None for any other kind of value.
pub uninterp spec fn text_of(v: serde_json::Value) -> Option<Seq<char>>;

/// What `serde_json::Value::as_array` yields, reduced to the length: the
/// number of elements of a JSON array value, or None for any other kind of
/// value.
pub uninterp spec fn array_len_of(v: serde_json::Value) -> Option<int>;

/// The text of an object's member under a key: the member, when it is a
/// string.
pub open spec fn member_text(v: serde_json::Value, key: Seq<char>) -> Option<Seq<char>> {
    match member_of(v, key) {
        Some(m) => text_of(m),
        None => None,
    }
}

/// The text of a document's top-level member under a key, or None where
/// the text does not parse or the member is no string.
pub open spec fn document_text(body: Seq<char>, key: Seq<char>) -> Option<Seq<char>> {
    match parsed_json(body) {
        Some(doc) => member_text(doc, key),
        None => None,
    }
}

/// Relies on serde_json::from_str: parses the text as one JSON document.
#[verifier::external_body]
pub(crate) fn json_parse(s: &str) -> (r: Result<serde_json::Value, serde_json::Error>)
    ensures
        r matches Ok(v) ==> parsed_json(s@) == Some(v),
        r is Err ==> parsed_json(s@) is None,
{
    serde_json::from_str(s)
}

/// Relies on serde_json::Value::get with a string index: the member of an
/// object under that key, if the value is an object and the key is present.
#[verifier::external_body]
pub(crate) fn json_get<'a>(v: &'a serde_json::Value, key: &str) -> (r: Option<
    &'a serde_json::Value,
>)
    ensures
        r matches Some(m) ==> member_of(*v, key@) == Some(*m),
        r is None ==> member_of(*v, key@) is None,
{
    v.get(key)
}

/// Relies on serde_json::Value::get with a usize index: the element of an
/// array at that position, if the value is an array long enough.
#[verifier::external_body]
pub(crate) fn json_at<'a>(v: &'a serde_json::Value, index: usize) -> (r: Option<
    &'a serde_json::Value,
>)
    ensures
        r matches Some(m) ==> element_of(*v, index as int) == Some(*m),
        r is None ==> element_of(*v, index as int) is None,
{
    v.get(index)
}

/// Relies on serde_json::Value::as_str: the text of a JSON string value,
/// or None for any other kind of value.
#[verifier::external_body]
pub(crate) fn json_str(v: &serde_json::Value) -> (r: Option<String>)
    ensures
        r matches Some(s) ==> text_of(*v) == Some(s@),
        r is None ==> text_of(*v) is None,
{
    match v.as_str() {
        Some(s) => Some(s.to_owned()),
        None => None,
    }
}

/// Relies on serde_json::Value::as_array: the length of a JSON array value,
/// or None for any other kind of value.
#[verifier::external_body]
pub(crate) fn json_array_len(v: &serde_json::Value) -> (r: Option<usize>)
    ensures
        r matches Some(n) ==> array_len_of(*v) == Some(n as int),
        r is None ==> array_len_of(*v) is None,
{
    match v.as_array() {
        Some(a) => Some(a.len()),
        None => None,
    }
}

/// What `serde_json::to_string` returns for a string slice; the result
/// depends on the characters alone.
pub uninterp spec fn json_string_of(s: Seq<char>) -> Seq<char>;

/// Relies on serde_json::to_string on a string slice: the quoted, escaped
/// JSON string literal for the text, a function of its characters alone.
/// Serializing a string slice always succeeds: the serializer writes into a
/// byte vector, which has no error path.
#[verifier::external_body]
pub(crate) fn json_quote(s: &str) -> (r: Result<String, serde_json::Error>)
    ensures
        r is Ok,
        r matches Ok(q) ==> q@ == json_string_of(s@),
{
    serde_json::to_string(&s)
}

} // verus!
