//! JSON values as the runtime contracts carry them. The library never looks
//! inside a value; it only tells objects from other values.

use serde_json::Value;
use vstd::prelude::*;

verus! {

#[verifier::external_type_specification]
#[verifier::external_body]
pub struct ExJsonValue(serde_json::Value);

#[verifier::external_type_specification]
#[verifier::external_body]
#[verifier::reject_recursive_types(K)]
#[verifier::reject_recursive_types(V)]
pub struct ExJsonMap<K, V>(serde_json::Map<K, V>);

/// `<Value as Clone>::clone`: an equal JSON value.
pub assume_specification[ <serde_json::Value as Clone>::clone ](value: &Value) -> (r: Value)
    ensures
        r == *value,
;

/// `<Map<String, Value> as Clone>::clone`: equal members.
pub assume_specification[ <serde_json::Map<String, Value> as Clone>::clone ](
    members: &serde_json::Map<String, Value>,
) -> (r: serde_json::Map<String, Value>)
    ensures
        r == *members,
;

/// A JSON object's members.
pub type JsonObject = serde_json::Map<String, Value>;

/// The members of a JSON value when it is an object, and `None` for every
/// other value.
pub uninterp spec fn json_object(value: Value) -> Option<JsonObject>;

/// Tells a JSON object from any other value: `Value::Object` yields its
/// members, every other variant yields the value back unchanged.
#[verifier::external_body]
pub(crate) fn json_into_object(value: Value) -> (r: Result<JsonObject, Value>)
    ensures
        match r {
            Ok(members) => json_object(value) == Some(members),
            Err(other) => json_object(value) is None && other == value,
        },
{
    match value {
        Value::Object(members) => Ok(members),
        other => Err(other),
    }
}

/// The number of members of a JSON object, as `Map::len` counts them.
pub uninterp spec fn json_member_count(members: JsonObject) -> nat;

/// Whether a JSON value is an object without members.
pub open spec fn is_empty_json_object(value: Value) -> bool {
    json_object(value) matches Some(members) && json_member_count(members) == 0
}

/// `Value::Object(serde_json::Map::new())`: a JSON object without members.
#[verifier::external_body]
pub(crate) fn empty_json_object() -> (r: Value)
    ensures
        json_object(r) is Some,
        json_member_count(json_object(r)->0) == 0,
{
    Value::Object(serde_json::Map::new())
}

} // verus!
