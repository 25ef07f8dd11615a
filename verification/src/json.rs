//! Trusted declarations for the JSON values the library carries through
//! serde_json, and wrappers for the calls the library makes into it. The
//! serializer and the parser are deterministic functions of their
//! arguments, so each call's outcome is given a name that the callers'
//! contracts speak of.
use vstd::prelude::*;

verus! {

#[verifier::external_type_specification]
#[verifier::external_body]
pub struct ExSerdeJsonValue(serde_json::Value);

/// The bytes serde_json::to_vec serializes a JSON value to, or nothing
/// where serialization fails.
pub uninterp spec fn json_bytes_of(v: serde_json::Value) -> Option<Seq<u8>>;

/// The JSON value serde_json::from_slice parses bytes to, or nothing where
/// the bytes are not valid JSON.
pub uninterp spec fn json_value_of(b: Seq<u8>) -> Option<serde_json::Value>;

/// Relies on serde_json::to_vec: serializes a JSON value to bytes, a
/// function of the value alone. A failure is carried as the message of
/// serde_json's own error.
#[verifier::external_body]
pub(crate) fn json_to_vec(v: &serde_json::Value) -> (r: Result<Vec<u8>, String>)
    ensures
        match json_bytes_of(*v) {
            Some(b) => r matches Ok(bytes) && bytes@ == b,
            None => r is Err,
        },
{
    serde_json::to_vec(v).map_err(|e| format!("{}", e))
}

/// Relies on serde_json::from_slice: parses bytes as a JSON value, a
/// function of the bytes alone. A failure is carried as the message of
/// serde_json's own error.
#[verifier::external_body]
pub(crate) fn json_from_slice(b: &[u8]) -> (r: Result<serde_json::Value, String>)
    ensures
        match json_value_of(b@) {
            Some(v) => r matches Ok(rv) && rv == v,
            None => r is Err,
        },
{
    serde_json::from_slice(b).map_err(|e| format!("{}", e))
}

} // verus!
