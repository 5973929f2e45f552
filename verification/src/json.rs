//! The JSON values that protocol messages carry through without reading them
//! (metadata, structured data, request ids), and the few reads the library
//! makes of them.

use vstd::prelude::*;

verus! {

/// A JSON value of serde_json, carried through as an opaque value.
#[verifier::external_type_specification]
#[verifier::external_body]
pub struct ExJsonValue(serde_json::Value);

/// A JSON object of serde_json, carried through as an opaque value.
#[verifier::external_type_specification]
#[verifier::external_body]
#[verifier::reject_recursive_types(K)]
#[verifier::reject_recursive_types(V)]
pub struct ExJsonMap<K, V>(serde_json::Map<K, V>);

/// `Clone` of a JSON value. Claimed: the copy equals the cloned value (serde_json
/// derives `Clone` for `Value`, copying every member).
pub assume_specification[ <serde_json::Value as Clone>::clone ](v: &serde_json::Value) -> (r: serde_json::Value)
    ensures
        r == *v,
;

/// `Clone` of a JSON object. Claimed: the copy equals the cloned map.
pub assume_specification[ <serde_json::Map<String, serde_json::Value> as Clone>::clone ](
    m: &serde_json::Map<String, serde_json::Value>,
) -> (r: serde_json::Map<String, serde_json::Value>)
    ensures
        r == *m,
;

/// The JSON string value holding `s` (`serde_json::Value::String`).
pub uninterp spec fn json_string_value(s: Seq<char>) -> serde_json::Value;

/// What serde_json reads from `bytes`: the value, or the display text of the
/// parse error when they are not one JSON value.
pub uninterp spec fn json_parsing(bytes: Seq<u8>) -> Result<serde_json::Value, Seq<char>>;

/// The value that serde_json reads from `bytes`, or `None` when they are not one JSON value.
pub open spec fn json_parse(bytes: Seq<u8>) -> Option<serde_json::Value> {
    match json_parsing(bytes) {
        Ok(v) => Some(v),
        Err(_) => None,
    }
}

/// The text of member `key` of a JSON value, when the value is an object whose
/// member `key` is a JSON string; `None` otherwise.
pub uninterp spec fn json_text_member(v: serde_json::Value, key: Seq<char>) -> Option<Seq<char>>;

/// The text of member `key` of a JSON object, when that member is a JSON string.
pub uninterp spec fn json_map_text_member(
    m: serde_json::Map<String, serde_json::Value>,
    key: Seq<char>,
) -> Option<Seq<char>>;

/// The object inside a JSON value, when the value is an object.
pub uninterp spec fn json_object_of(v: serde_json::Value) -> Option<serde_json::Map<String, serde_json::Value>>;

/// Builds the JSON string value holding `s` (the `serde_json::Value::String`
/// variant). Claimed: the result is the value named `json_string_value(s@)`.
#[verifier::external_body]
pub(crate) fn json_string(s: String) -> (v: serde_json::Value)
    ensures
        v == json_string_value(s@),
{
    serde_json::Value::String(s)
}

/// Parses bytes as one JSON value with `serde_json::from_slice`, a parse error
/// given as its display text. Claimed: the outcome is `json_parsing(bytes@)`,
/// a function of the bytes alone.
#[verifier::external_body]
pub(crate) fn parse_json(bytes: &[u8]) -> (r: Result<serde_json::Value, String>)
    ensures
        match r {
            Ok(v) => json_parsing(bytes@) == Ok::<serde_json::Value, Seq<char>>(v),
            Err(message) => json_parsing(bytes@) == Err::<serde_json::Value, Seq<char>>(message@),
        },
{
    match serde_json::from_slice(bytes) {
        Ok(value) => Ok(value),
        Err(error) => Err(format!("{error}")),
    }
}

/// Reads member `key` of a JSON value as text: `Value::get` followed by
/// `Value::as_str`. Claimed: the result is `json_text_member(*v, key@)`.
#[verifier::external_body]
pub(crate) fn text_member(v: &serde_json::Value, key: &str) -> (r: Option<String>)
    ensures
        r is Some <==> json_text_member(*v, key@) is Some,
        r is Some ==> r->0@ == json_text_member(*v, key@)->0,
{
    v.get(key).and_then(|member| member.as_str()).map(|text| text.to_string())
}

/// Reads member `key` of a JSON object as text: `Map::get` followed by
/// `Value::as_str`. Claimed: the result is `json_map_text_member(*m, key@)`.
#[verifier::external_body]
pub(crate) fn map_text_member(m: &serde_json::Map<String, serde_json::Value>, key: &str) -> (r: Option<String>)
    ensures
        r is Some <==> json_map_text_member(*m, key@) is Some,
        r is Some ==> r->0@ == json_map_text_member(*m, key@)->0,
{
    m.get(key).and_then(|member| member.as_str()).map(|text| text.to_string())
}

/// Takes the object out of a JSON value, telling the `Value::Object` variant
/// from the others. Claimed: `Ok` exactly when `json_object_of(v)` is some
/// object, which is then the result; otherwise the value comes back unchanged.
#[verifier::external_body]
pub(crate) fn into_object(v: serde_json::Value) -> (r: Result<serde_json::Map<String, serde_json::Value>, serde_json::Value>)
    ensures
        match r {
            Ok(m) => json_object_of(v) == Some(m),
            Err(back) => json_object_of(v) is None && back == v,
        },
{
    match v {
        serde_json::Value::Object(m) => Ok(m),
        other => Err(other),
    }
}

/// The elements of member `key` of a JSON value, when the value is an object
/// whose member `key` is an array; `None` otherwise.
pub uninterp spec fn json_array_member(v: serde_json::Value, key: Seq<char>) -> Option<Seq<serde_json::Value>>;

/// Reads member `key` of a JSON value as an array: `Value::get` followed by
/// `Value::as_array`, the elements cloned. Claimed: the result is
/// `json_array_member(*v, key@)`.
#[verifier::external_body]
pub(crate) fn array_member(v: &serde_json::Value, key: &str) -> (r: Option<Vec<serde_json::Value>>)
    ensures
        r is Some <==> json_array_member(*v, key@) is Some,
        r is Some ==> r->0@ == json_array_member(*v, key@)->0,
{
    v.get(key).and_then(|member| member.as_array()).cloned()
}

/// The compact JSON text that serde_json's `Display` writes for a value.
pub uninterp spec fn json_display_text(v: serde_json::Value) -> Seq<char>;

/// Wraps an object as a JSON value (the `serde_json::Value::Object` variant).
/// Claimed: taking the object back out gives the same object.
#[verifier::external_body]
pub(crate) fn object_value(m: serde_json::Map<String, serde_json::Value>) -> (v: serde_json::Value)
    ensures
        json_object_of(v) == Some(m),
{
    serde_json::Value::Object(m)
}

/// The compact JSON text of a value (`Value`'s `Display`, through `to_string`).
/// Claimed: the text is `json_display_text(*v)`.
#[verifier::external_body]
pub(crate) fn display_text(v: &serde_json::Value) -> (r: String)
    ensures
        r@ == json_display_text(*v),
{
    v.to_string()
}

} // verus!
