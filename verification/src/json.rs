//! The JSON value type that requests and responses carry through unread.
use vstd::prelude::*;

verus! {

/// `serde_json::Value`, held as an opaque value: nothing in this library
/// looks inside one.
#[verifier::external_type_specification]
#[verifier::external_body]
pub struct ExJsonValue(serde_json::Value);

/// Calls `Clone::clone` of `serde_json::Value`, which that crate derives:
/// the copy is the same JSON value as the one it was made from.
#[verifier::external_body]
pub(crate) fn clone_json(value: &serde_json::Value) -> (copy: serde_json::Value)
    ensures
        copy == *value,
{
    value.clone()
}

} // verus!
