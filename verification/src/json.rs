//! The facts that a node carries are JSON values of `serde_json`. This module
//! declares that type and gives names to what its accessors return, so that the
//! graph store can state what it keeps and what it hands back.
use serde_json::Value;
use vstd::prelude::*;

verus! {

/// A JSON value of `serde_json`. Nothing inside it is visible to a proof.
#[verifier::external_type_specification]
#[verifier::external_body]
pub struct ExValue(serde_json::Value);

/// What `Value::as_u64` returns for a JSON value: the number it holds, where
/// it holds an unsigned integer.
pub uninterp spec fn json_u64(v: Value) -> Option<u64>;

/// What `Value::as_str` returns for a JSON value: the text it holds, where it
/// holds a string.
pub uninterp spec fn json_text(v: Value) -> Option<Seq<char>>;

/// The JSON number that `Value::from` makes of an unsigned integer.
pub uninterp spec fn json_number(n: u64) -> Value;

/// The JSON string that `Value::String` makes of a text.
pub uninterp spec fn json_string(s: Seq<char>) -> Value;

/// What `Value::as_object` returns for a JSON value: the entries it holds,
/// where it is an object.
pub uninterp spec fn json_object(v: Value) -> Option<Map<Seq<char>, Value>>;

/// Builds `Value::Object` of `Map::new()`: an object without entries.
#[verifier::external_body]
pub(crate) fn value_new_object() -> (v: Value)
    ensures
        json_object(v) == Some(Map::<Seq<char>, Value>::empty()),
{
    Value::Object(serde_json::Map::new())
}

/// What `Value::as_array` returns for a JSON value: the items it holds, in
/// order, where it is an array.
pub uninterp spec fn json_array(v: Value) -> Option<Seq<Value>>;

/// What `serde_json::to_string` makes of a JSON value: the document on one
/// line, or nothing where the value cannot be written.
pub uninterp spec fn json_compact(v: Value) -> Option<Seq<char>>;

/// What `serde_json::to_string_pretty` makes of a JSON value: the document
/// with line breaks and indentation, or nothing where the value cannot be
/// written.
pub uninterp spec fn json_pretty(v: Value) -> Option<Seq<char>>;

/// Builds `Value::Array` of `Vec::new()`: an array without items.
#[verifier::external_body]
pub(crate) fn value_new_array() -> (v: Value)
    ensures
        json_array(v) == Some(Seq::<Value>::empty()),
{
    Value::Array(Vec::new())
}

/// Calls `Vec::push` on the items of an array, which it reaches by
/// `Value::as_array_mut`: the item is added behind the others. The call
/// needs an array.
#[verifier::external_body]
pub(crate) fn value_push(array: &mut Value, item: Value)
    requires
        json_array(*old(array)) is Some,
    ensures
        json_array(*final(array)) == Some(json_array(*old(array))->0.push(item)),
{
    array.as_array_mut().unwrap().push(item);
}

/// Calls `serde_json::to_string`. The result is named; an error of the
/// call is `None`.
#[verifier::external_body]
pub(crate) fn value_to_string(v: &Value) -> (r: Option<String>)
    ensures
        r is Some == json_compact(*v) is Some,
        r is Some ==> Some(r->0@) == json_compact(*v),
{
    serde_json::to_string(v).ok()
}

/// Calls `serde_json::to_string_pretty`. The result is named; an error of
/// the call is `None`.
#[verifier::external_body]
pub(crate) fn value_to_string_pretty(v: &Value) -> (r: Option<String>)
    ensures
        r is Some == json_pretty(*v) is Some,
        r is Some ==> Some(r->0@) == json_pretty(*v),
{
    serde_json::to_string_pretty(v).ok()
}

/// Builds `Value::Null`, which is no number, no string and no object.
#[verifier::external_body]
pub(crate) fn value_null() -> (v: Value)
    ensures
        json_u64(v) is None,
        json_text(v) is None,
        json_object(v) is None,
{
    Value::Null
}

/// Calls `Value::is_object`: whether `as_object` gives anything.
#[verifier::external_body]
pub(crate) fn value_is_object(v: &Value) -> (r: bool)
    ensures
        r == json_object(*v) is Some,
{
    v.is_object()
}

/// Calls `Map::insert` on the entries of an object, which it reaches by
/// `Value::as_object_mut`: the entry is added, in place of one with the same
/// key. The call needs an object.
#[verifier::external_body]
pub(crate) fn value_insert(object: &mut Value, key: String, value: Value)
    requires
        json_object(*old(object)) is Some,
    ensures
        json_object(*final(object)) == Some(json_object(*old(object))->0.insert(key@, value)),
{
    object.as_object_mut().unwrap().insert(key, value);
}

/// Calls `Value::as_u64`. The result is named; nothing else is claimed.
#[verifier::external_body]
pub(crate) fn value_as_u64(v: &Value) -> (r: Option<u64>)
    ensures
        r == json_u64(*v),
{
    v.as_u64()
}

/// Calls `Value::as_str`. The result, taken by its characters, is named.
#[verifier::external_body]
pub(crate) fn value_as_str(v: &Value) -> (r: Option<&str>)
    ensures
        r is Some == json_text(*v) is Some,
        r is Some ==> json_text(*v) == Some(r->0@),
{
    v.as_str()
}

/// Calls `Value::from` on a `u64`. The value is a number, and `as_u64` gives
/// the same integer back; it is no string.
#[verifier::external_body]
pub(crate) fn value_from_u64(n: u64) -> (v: Value)
    ensures
        v == json_number(n),
        json_u64(v) == Some(n),
        json_text(v) is None,
{
    Value::from(n)
}

/// Builds `Value::String`. `as_str` gives the same text back; it is no number.
#[verifier::external_body]
pub(crate) fn value_from_string(s: String) -> (v: Value)
    ensures
        v == json_string(s@),
        json_text(v) == Some(s@),
        json_u64(v) is None,
{
    Value::String(s)
}

/// Calls `Value::clone`, which copies the whole document.
#[verifier::external_body]
pub(crate) fn value_clone(v: &Value) -> (r: Value)
    ensures
        r == *v,
{
    v.clone()
}

} // verus!
