//! The Responses-only "encrypted" marker in a tool's JSON input schema.
//!
//! A schema marks a reviewed parameter with a non-null `encrypted` member. The marker is not JSON
//! Schema and has no provider-neutral meaning, so a tool whose schema carries it anywhere stays
//! on the Responses path.

use crate::json::json_array_elements;
use crate::json::json_array_items;
use crate::json::json_compact_text;
use crate::json::json_get;
use crate::json::json_is_null;
use crate::json::json_member;
use crate::json::json_null;
use crate::json::json_object_members;
use crate::json::json_object_values;
use vstd::prelude::*;

verus! {

/// Whether some schema of `schemas` carries the marker, looking `fuel` levels deep.
pub open spec fn any_marker_within(schemas: Seq<serde_json::Value>, fuel: nat) -> bool
    decreases fuel, 1nat, schemas.len(),
{
    if schemas.len() == 0 {
        false
    } else {
        any_marker_within(schemas.drop_last(), fuel) || marker_within(schemas.last(), fuel)
    }
}

/// Whether some member schema of the map under `key` carries the marker.
pub open spec fn map_marker_within(schema: serde_json::Value, key: Seq<char>, fuel: nat) -> bool
    decreases fuel, 2nat, 0nat,
{
    json_member(schema, key) matches Some(map) && json_object_members(map) matches Some(members)
        && any_marker_within(members, fuel)
}

/// Whether the schema under `key` carries the marker.
pub open spec fn child_marker_within(schema: serde_json::Value, key: Seq<char>, fuel: nat) -> bool
    decreases fuel, 2nat, 0nat,
{
    json_member(schema, key) matches Some(child) && marker_within(child, fuel)
}

/// Whether some schema of the list under `key` carries the marker.
pub open spec fn list_marker_within(schema: serde_json::Value, key: Seq<char>, fuel: nat) -> bool
    decreases fuel, 2nat, 0nat,
{
    json_member(schema, key) matches Some(list) && json_array_elements(list) matches Some(items)
        && any_marker_within(items, fuel)
}

/// Whether `schema` carries the marker, looking `fuel` levels deep: a non-null `encrypted`
/// member, or a marker in `items`, `additionalProperties`, a member of `properties`, `$defs` or
/// `definitions`, or an element of `anyOf`, `oneOf` or `allOf`.
pub open spec fn marker_within(schema: serde_json::Value, fuel: nat) -> bool
    decreases fuel, 0nat, 0nat,
{
    if fuel == 0 {
        false
    } else {
        let f = (fuel - 1) as nat;
        ||| (json_member(schema, "encrypted"@) matches Some(e) && !json_null(e))
        ||| child_marker_within(schema, "items"@, f)
        ||| child_marker_within(schema, "additionalProperties"@, f)
        ||| map_marker_within(schema, "properties"@, f)
        ||| list_marker_within(schema, "anyOf"@, f)
        ||| list_marker_within(schema, "oneOf"@, f)
        ||| list_marker_within(schema, "allOf"@, f)
        ||| map_marker_within(schema, "$defs"@, f)
        ||| map_marker_within(schema, "definitions"@, f)
    }
}

/// The size bound of a schema: the length of its compact text, which bounds its depth.
pub open spec fn schema_size(schema: serde_json::Value) -> nat {
    json_compact_text(schema).len()
}

/// Whether `schema` carries the encrypted marker anywhere. Every nested schema is printed inside
/// its parent, so looking as many levels deep as the schema's text is long finds every marker.
pub open spec fn schema_has_marker(schema: serde_json::Value) -> bool {
    marker_within(schema, schema_size(schema) + 1)
}

/// Whether some schema of `schemas` carries the marker, each of them smaller than `bound`.
fn any_schema_marker(schemas: &Vec<serde_json::Value>, Ghost(bound): Ghost<nat>) -> (r: bool)
    requires
        forall|i: int| 0 <= i < schemas@.len() ==> schema_size(#[trigger] schemas@[i]) < bound,
    ensures
        forall|f: nat| f >= bound ==> r == #[trigger] any_marker_within(schemas@, f),
    decreases bound, 0nat,
{
    let mut i: usize = 0;
    while i < schemas.len()
        invariant
            i <= schemas@.len(),
            forall|j: int| 0 <= j < schemas@.len() ==> schema_size(#[trigger] schemas@[j]) < bound,
            forall|f: nat| f >= bound ==> !#[trigger] any_marker_within(schemas@.subrange(0, i as int), f),
        decreases schemas.len() - i,
    {
        assert(schema_size(schemas@[i as int]) < bound);
        let found = marker_in(&schemas[i]);
        proof {
            let next = schemas@.subrange(0, i + 1);
            assert(next.drop_last() =~= schemas@.subrange(0, i as int));
            assert(next.last() == schemas@[i as int]);
            assert forall|f: nat| f >= bound implies #[trigger] any_marker_within(next, f) == found by {
                assert(any_marker_within(next, f) == (any_marker_within(next.drop_last(), f) || marker_within(next.last(), f)));
            }
        }
        if found {
            proof {
                assert forall|f: nat| f >= bound implies #[trigger] any_marker_within(schemas@, f) by {
                    lemma_any_marker_prefix(schemas@, i + 1, f);
                }
            }
            return true;
        }
        i += 1;
    }
    assert(schemas@.subrange(0, schemas@.len() as int) =~= schemas@);
    false
}

/// A marker in a prefix of a list is a marker in the list.
proof fn lemma_any_marker_prefix(schemas: Seq<serde_json::Value>, k: int, fuel: nat)
    requires
        0 <= k <= schemas.len(),
        any_marker_within(schemas.subrange(0, k), fuel),
    ensures
        any_marker_within(schemas, fuel),
    decreases schemas.len() - k,
{
    if k < schemas.len() {
        let next = schemas.subrange(0, k + 1);
        assert(next.drop_last() =~= schemas.subrange(0, k));
        lemma_any_marker_prefix(schemas, k + 1, fuel);
    } else {
        assert(schemas.subrange(0, k) =~= schemas);
    }
}

/// Whether some member schema of the map under `key` carries the marker.
fn map_marker(schema: &serde_json::Value, key: &str) -> (r: bool)
    ensures
        forall|f: nat| f >= schema_size(*schema) ==> r == #[trigger] map_marker_within(*schema, key@, f),
    decreases schema_size(*schema), 1nat,
{
    match json_get(schema, key) {
        Some(map) => match json_object_values(&map) {
            Some(members) => {
                let r = any_schema_marker(&members, Ghost(schema_size(*schema)));
                assert forall|f: nat| f >= schema_size(*schema) implies r == #[trigger] map_marker_within(*schema, key@, f) by {
                    assert(map_marker_within(*schema, key@, f) == any_marker_within(members@, f));
                }
                r
            },
            None => false,
        },
        None => false,
    }
}

/// Whether some schema of the list under `key` carries the marker.
fn list_marker(schema: &serde_json::Value, key: &str) -> (r: bool)
    ensures
        forall|f: nat| f >= schema_size(*schema) ==> r == #[trigger] list_marker_within(*schema, key@, f),
    decreases schema_size(*schema), 1nat,
{
    match json_get(schema, key) {
        Some(list) => match json_array_items(&list) {
            Some(items) => {
                let r = any_schema_marker(&items, Ghost(schema_size(*schema)));
                assert forall|f: nat| f >= schema_size(*schema) implies r == #[trigger] list_marker_within(*schema, key@, f) by {
                    assert(list_marker_within(*schema, key@, f) == any_marker_within(items@, f));
                }
                r
            },
            None => false,
        },
        None => false,
    }
}

fn marker_at(schema: &serde_json::Value, key: &str) -> (r: bool)
    ensures
        forall|f: nat| f >= schema_size(*schema) ==> r == #[trigger] child_marker_within(*schema, key@, f),
    decreases schema_size(*schema), 1nat,
{
    match json_get(schema, key) {
        Some(child) => {
            let r = marker_in(&child);
            assert forall|f: nat| f >= schema_size(*schema) implies r == #[trigger] child_marker_within(*schema, key@, f) by {
                assert(child_marker_within(*schema, key@, f) == marker_within(child, f));
            }
            r
        },
        None => false,
    }
}

/// Whether a schema carries the marker, found by walking it.
fn marker_in(schema: &serde_json::Value) -> (r: bool)
    ensures
        forall|f: nat| f > schema_size(*schema) ==> r == #[trigger] marker_within(*schema, f),
    decreases schema_size(*schema), 2nat,
{
    let marked = match json_get(schema, "encrypted") {
        Some(e) => !json_is_null(&e),
        None => false,
    };
    let items = marker_at(schema, "items");
    let additional = marker_at(schema, "additionalProperties");
    let properties = map_marker(schema, "properties");
    let any_of = list_marker(schema, "anyOf");
    let one_of = list_marker(schema, "oneOf");
    let all_of = list_marker(schema, "allOf");
    let defs = map_marker(schema, "$defs");
    let definitions = map_marker(schema, "definitions");
    let r = marked || items || additional || properties || any_of || one_of || all_of || defs || definitions;
    assert forall|f: nat| f > schema_size(*schema) implies r == #[trigger] marker_within(*schema, f) by {
        let g = (f - 1) as nat;
        assert(items == child_marker_within(*schema, "items"@, g));
        assert(additional == child_marker_within(*schema, "additionalProperties"@, g));
        assert(properties == map_marker_within(*schema, "properties"@, g));
        assert(any_of == list_marker_within(*schema, "anyOf"@, g));
        assert(one_of == list_marker_within(*schema, "oneOf"@, g));
        assert(all_of == list_marker_within(*schema, "allOf"@, g));
        assert(defs == map_marker_within(*schema, "$defs"@, g));
        assert(definitions == map_marker_within(*schema, "definitions"@, g));
    }
    r
}

/// Whether a tool's input schema carries the encrypted marker anywhere.
pub fn schema_has_responses_encrypted_marker(schema: &serde_json::Value) -> (r: bool)
    ensures
        r == schema_has_marker(*schema),
{
    marker_in(schema)
}

} // verus!
