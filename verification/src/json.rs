//! Trusted access to the members of a JSON document, through serde_json.
//!
//! Parsing a byte slice as JSON is a function of the bytes alone, so the
//! member of a given type at a given key of the top-level object is named
//! by an uninterpreted spec function of the bytes and the key; the
//! wrappers below tie each name to the serde_json call that computes it.

use vstd::prelude::*;

verus! {

/// The string member at `key` of the top-level JSON object encoded by
/// `bytes`; `None` where the bytes are not a JSON document, the key is
/// absent, or the member is not a string.
pub uninterp spec fn json_str_member(bytes: Seq<u8>, key: Seq<char>) -> Option<Seq<char>>;

/// The boolean member at `key`, under the same convention.
pub uninterp spec fn json_bool_member(bytes: Seq<u8>, key: Seq<char>) -> Option<bool>;

/// The unsigned integer member at `key`, under the same convention.
pub uninterp spec fn json_u64_member(bytes: Seq<u8>, key: Seq<char>) -> Option<u64>;

/// Relies on serde_json::from_slice::<Value>, Value::get and
/// Value::as_str: parsing is deterministic, so the string member at `key`
/// is a function of the bytes and the key alone.
#[verifier::external_body]
pub(crate) fn json_get_str(bytes: &[u8], key: &str) -> (member: Option<String>)
    ensures
        member is Some <==> json_str_member(bytes@, key@) is Some,
        member matches Some(text) ==> json_str_member(bytes@, key@) == Some(text@),
{
    let value: serde_json::Value = serde_json::from_slice(bytes).ok()?;
    Some(value.get(key)?.as_str()?.to_owned())
}

/// Relies on serde_json::from_slice::<Value>, Value::get and
/// Value::as_bool, as `json_get_str` does for strings.
#[verifier::external_body]
pub(crate) fn json_get_bool(bytes: &[u8], key: &str) -> (member: Option<bool>)
    ensures
        member == json_bool_member(bytes@, key@),
{
    let value: serde_json::Value = serde_json::from_slice(bytes).ok()?;
    value.get(key)?.as_bool()
}

/// Relies on serde_json::from_slice::<Value>, Value::get and
/// Value::as_u64, as `json_get_str` does for strings.
#[verifier::external_body]
pub(crate) fn json_get_u64(bytes: &[u8], key: &str) -> (member: Option<u64>)
    ensures
        member == json_u64_member(bytes@, key@),
{
    let value: serde_json::Value = serde_json::from_slice(bytes).ok()?;
    value.get(key)?.as_u64()
}

} // verus!
