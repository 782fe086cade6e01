//! The JSON values carried through the kernel vocabulary.
//!
//! JSON documents are held as `serde_json::Value` and treated as opaque: the kernel logic only
//! parses text into values, prints values back to compact text, copies and compares them.

use vstd::prelude::*;

verus! {

#[verifier::external_type_specification]
#[verifier::external_body]
pub struct ExJsonValue(serde_json::Value);

#[verifier::external_type_specification]
#[verifier::external_body]
pub struct ExJsonNumber(serde_json::Number);

/// `serde_json::Number`'s derived `Clone`: the copy equals the original.
pub assume_specification[<serde_json::Number as Clone>::clone](value: &serde_json::Number) -> (r: serde_json::Number)
    ensures
        r == *value,
;

/// The value that `serde_json::from_str::<Value>` yields for a text, or `None` when the text
/// is not one complete JSON document.
pub uninterp spec fn json_parse(text: Seq<char>) -> Option<serde_json::Value>;

/// The compact text that `serde_json::Value`'s `Display` implementation prints for a value.
pub uninterp spec fn json_compact_text(value: serde_json::Value) -> Seq<char>;

/// Whether `serde_json::Value`'s `PartialEq` reports two values as equal.
pub uninterp spec fn json_values_equal(a: serde_json::Value, b: serde_json::Value) -> bool;

/// The value `serde_json::Value::String` built from a text.
pub uninterp spec fn json_string_value(text: Seq<char>) -> serde_json::Value;

/// The value `serde_json::Value::Array` built from a sequence of values.
pub uninterp spec fn json_array_value(items: Seq<serde_json::Value>) -> serde_json::Value;

/// Parses one JSON document with `serde_json::from_str::<serde_json::Value>`; the result is the
/// named parse of the text.
#[verifier::external_body]
pub(crate) fn parse_json(text: &str) -> (r: Option<serde_json::Value>)
    ensures
        r == json_parse(text@),
{
    serde_json::from_str::<serde_json::Value>(text).ok()
}

/// Prints a value as compact JSON text through `serde_json::Value`'s `Display` implementation.
#[verifier::external_body]
pub(crate) fn json_to_text(value: &serde_json::Value) -> (r: String)
    ensures
        r@ == json_compact_text(*value),
{
    value.to_string()
}

/// `serde_json::Value`'s derived `Clone`: the copy equals the original.
pub assume_specification[<serde_json::Value as Clone>::clone](value: &serde_json::Value) -> (r: serde_json::Value)
    ensures
        r == *value,
;

/// Compares two values with their derived `PartialEq` implementation. The derived comparison is
/// structural, so a value always compares equal to itself (JSON numbers are always finite).
#[verifier::external_body]
pub(crate) fn json_equal(a: &serde_json::Value, b: &serde_json::Value) -> (r: bool)
    ensures
        r == json_values_equal(*a, *b),
        *a == *b ==> r,
{
    a == b
}

/// Wraps a text as a JSON string value (`serde_json::Value::String`).
#[verifier::external_body]
pub(crate) fn json_from_text(text: String) -> (r: serde_json::Value)
    ensures
        r == json_string_value(text@),
{
    serde_json::Value::String(text)
}

/// Wraps a list of values as a JSON array value (`serde_json::Value::Array`).
#[verifier::external_body]
pub(crate) fn json_from_values(items: Vec<serde_json::Value>) -> (r: serde_json::Value)
    ensures
        r == json_array_value(items@),
{
    serde_json::Value::Array(items)
}

/// The member that `serde_json::Value::get` finds under a key: `None` unless the value is an
/// object holding that key.
pub uninterp spec fn json_member(value: serde_json::Value, key: Seq<char>) -> Option<serde_json::Value>;

/// The elements that `serde_json::Value::as_array` exposes: `None` unless the value is an array.
pub uninterp spec fn json_array_elements(value: serde_json::Value) -> Option<Seq<serde_json::Value>>;

/// The member values that `serde_json::Value::as_object` exposes, in the map's order: `None`
/// unless the value is an object.
pub uninterp spec fn json_object_members(value: serde_json::Value) -> Option<Seq<serde_json::Value>>;

/// Whether `serde_json::Value::is_null` reports the value as `null`.
pub uninterp spec fn json_null(value: serde_json::Value) -> bool;

/// Looks a key up in a JSON object with `serde_json::Value::get` and copies the member. The
/// member is printed inside the object's compact text, so its own text is shorter.
#[verifier::external_body]
pub(crate) fn json_get(value: &serde_json::Value, key: &str) -> (r: Option<serde_json::Value>)
    ensures
        r == json_member(*value, key@),
        r matches Some(m) ==> json_compact_text(m).len() < json_compact_text(*value).len(),
{
    value.get(key).cloned()
}

/// Copies the elements of a JSON array (`serde_json::Value::as_array`). Each element is printed
/// inside the array's compact text, so its own text is shorter.
#[verifier::external_body]
pub(crate) fn json_array_items(value: &serde_json::Value) -> (r: Option<Vec<serde_json::Value>>)
    ensures
        match r {
            Some(items) => json_array_elements(*value) == Some(items@),
            None => json_array_elements(*value) is None,
        },
        r matches Some(items) ==> forall|i: int| 0 <= i < items@.len()
            ==> json_compact_text(#[trigger] items@[i]).len() < json_compact_text(*value).len(),
{
    value.as_array().cloned()
}

/// Copies the member values of a JSON object (`serde_json::Value::as_object`), in the map's
/// order. Each member is printed inside the object's compact text, so its own text is shorter.
#[verifier::external_body]
pub(crate) fn json_object_values(value: &serde_json::Value) -> (r: Option<Vec<serde_json::Value>>)
    ensures
        match r {
            Some(members) => json_object_members(*value) == Some(members@),
            None => json_object_members(*value) is None,
        },
        r matches Some(members) ==> forall|i: int| 0 <= i < members@.len()
            ==> json_compact_text(#[trigger] members@[i]).len() < json_compact_text(*value).len(),
{
    match value.as_object() {
        Some(map) => Some(map.values().cloned().collect()),
        None => None,
    }
}

/// Whether a JSON value is `null` (`serde_json::Value::is_null`).
#[verifier::external_body]
pub(crate) fn json_is_null(value: &serde_json::Value) -> (r: bool)
    ensures
        r == json_null(*value),
{
    value.is_null()
}

} // verus!
