//! The part of serde_json that the payload builder relies on.

use vstd::prelude::*;

verus! {

#[verifier::external_type_specification]
#[verifier::external_body]
pub struct ExValue(serde_json::Value);

#[verifier::external_type_specification]
#[verifier::external_body]
#[verifier::reject_recursive_types(K)]
#[verifier::reject_recursive_types(V)]
pub struct ExObject<K, V>(serde_json::Map<K, V>);

/// What a JSON object holds: each key, mapped to `Some(s)` when its value is
/// the JSON string `s`, and to `None` when its value is anything else.
pub uninterp spec fn object_fields(m: serde_json::Map<String, serde_json::Value>) -> Map<
    Seq<char>,
    Option<Seq<char>>,
>;

/// The fields of an object with no keys.
pub open spec fn no_fields() -> Map<Seq<char>, Option<Seq<char>>> {
    Map::empty()
}

/// Relies on `serde_json::Map::new`: the map it makes is empty.
#[verifier::external_body]
pub(crate) fn new_object() -> (r: serde_json::Map<String, serde_json::Value>)
    ensures
        object_fields(r) == no_fields(),
{
    serde_json::Map::new()
}

/// Relies on `serde_json::Map::insert`: the key is bound to the given value,
/// replacing any earlier binding, and every other key keeps its value.
#[verifier::external_body]
pub(crate) fn insert_string(
    m: &mut serde_json::Map<String, serde_json::Value>,
    key: String,
    value: String,
)
    ensures
        object_fields(*final(m)) == object_fields(*old(m)).insert(key@, Some(value@)),
{
    m.insert(key, serde_json::Value::String(value));
}

} // verus!
