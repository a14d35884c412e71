//! JSON values as the wire carries them. The client passes them along and
//! knows of one only whether it is `null`.

use vstd::prelude::*;

verus! {

/// A JSON value of `serde_json`. Nothing inside it is visible to a proof.
#[verifier::external_type_specification]
#[verifier::external_body]
pub struct ExValue(serde_json::Value);

/// The error with which `serde_json` refuses a value.
#[verifier::external_type_specification]
#[verifier::external_body]
pub struct ExJsonError(serde_json::Error);

/// Whether a JSON value is `null`: the variant `Value::Null` of `serde_json`.
pub uninterp spec fn json_null(value: serde_json::Value) -> bool;

/// `Value::default`: the default JSON value is `null`.
pub assume_specification[ <serde_json::Value as core::default::Default>::default ]() -> (value:
    serde_json::Value)
    ensures
        json_null(value),
;

/// `Value::clone`: the copy is the value itself.
pub assume_specification[ <serde_json::Value as Clone>::clone ](value: &serde_json::Value) -> (copy:
    serde_json::Value)
    ensures
        copy == *value,
;

/// The value itself where there is one, `null` where there is none.
pub fn or_null(value: Option<serde_json::Value>) -> (json: serde_json::Value)
    ensures
        value matches Some(v) ==> json == v,
        value is None ==> json_null(json),
{
    match value {
        Some(v) => v,
        None => serde_json::Value::default(),
    }
}

} // verus!
