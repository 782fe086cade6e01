//! Stable identifiers for prompt-only items synthesized during history normalization.

use vstd::prelude::*;
use vstd::utf8::encode_utf8;

verus! {

#[verifier::external_type_specification]
#[verifier::external_body]
pub struct ExUuid(uuid::Uuid);

/// The UUID whose 128 bits are `bits` (`uuid::Uuid::from_u128`).
pub uninterp spec fn uuid_from_bits(bits: u128) -> uuid::Uuid;

/// The name-based version-5 UUID of a namespace and a name (`uuid::Uuid::new_v5`).
pub uninterp spec fn uuid_v5_of(namespace: uuid::Uuid, name: Seq<u8>) -> uuid::Uuid;

/// The lower-case hyphenated text that `uuid::Uuid`'s `Display` implementation prints.
pub uninterp spec fn uuid_text(id: uuid::Uuid) -> Seq<char>;

/// Builds a UUID from its 128 bits with `uuid::Uuid::from_u128`.
#[verifier::external_body]
fn uuid_from_u128(bits: u128) -> (r: uuid::Uuid)
    ensures
        r == uuid_from_bits(bits),
{
    uuid::Uuid::from_u128(bits)
}

/// Derives the name-based version-5 UUID of a name in a namespace with `uuid::Uuid::new_v5`.
#[verifier::external_body]
fn uuid_new_v5(namespace: &uuid::Uuid, name: &[u8]) -> (r: uuid::Uuid)
    ensures
        r == uuid_v5_of(*namespace, name@),
{
    uuid::Uuid::new_v5(namespace, name)
}

/// Prints a UUID through its `Display` implementation.
#[verifier::external_body]
fn uuid_to_text(id: &uuid::Uuid) -> (r: String)
    ensures
        r@ == uuid_text(*id),
{
    id.to_string()
}

/// Namespace of synthetic output identifiers. Changing it would change model-visible IDs and
/// invalidate prompt caches.
pub const SYNTHETIC_OUTPUT_ID_NAMESPACE: u128 = 0x90d38d3e_6a5b_4d52_bfe2_2f1e634bfac4u128;

/// The identifier text `{prefix}_{suffix}` of a Responses item with a known suffix.
pub open spec fn spec_item_id_with_suffix(prefix: Seq<char>, suffix: Seq<char>) -> Seq<char> {
    prefix + "_"@ + suffix
}

/// The identifier derived for a synthetic output from its source call's item identifier, or
/// `None` when the call has no (non-empty) identifier.
pub open spec fn spec_synthetic_output_id(prefix: Seq<char>, item_id: Option<Seq<char>>) -> Option<Seq<char>> {
    match item_id {
        Some(source) => if source.len() == 0 {
            None
        } else {
            Some(spec_item_id_with_suffix(
                prefix,
                uuid_text(uuid_v5_of(uuid_from_bits(SYNTHETIC_OUTPUT_ID_NAMESPACE), encode_utf8(prefix + ":"@ + source))),
            ))
        },
        None => None,
    }
}

/// The text view of an optional text.
pub open spec fn opt_view(s: Option<String>) -> Option<Seq<char>> {
    match s {
        Some(s) => Some(s@),
        None => None,
    }
}

/// Derives a stable identifier for a prompt-only output from its source call's item identifier.
///
/// Normalization can run repeatedly without persisting its synthetic outputs, so the namespace
/// and the name format stay fixed across retries and resumes.
pub fn synthetic_output_id(prefix: &str, item_id: Option<&String>) -> (r: Option<String>)
    ensures
        opt_view(r) == spec_synthetic_output_id(prefix@, match item_id {
            Some(s) => Some(s@),
            None => None,
        }),
{
    let source = match item_id {
        Some(s) => s,
        None => return None,
    };
    if source.as_str().is_empty() {
        return None;
    }
    let mut name = String::new();
    name.append(prefix);
    name.append(":");
    name.append(source.as_str());
    let namespace = uuid_from_u128(SYNTHETIC_OUTPUT_ID_NAMESPACE);
    let id = uuid_new_v5(&namespace, name.as_str().as_bytes());
    let suffix = uuid_to_text(&id);
    let mut out = String::new();
    out.append(prefix);
    out.append("_");
    out.append(suffix.as_str());
    Some(out)
}

} // verus!
