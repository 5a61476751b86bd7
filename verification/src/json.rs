//! The JSON values that a response carries, as `serde_json_bytes` represents
//! them, and what the rest of the crate relies on about them.
//!
//! Values and objects are opaque here. An object is described by its entries,
//! in the order in which it yields them; a value only by whether it is `null`.

use serde_json_bytes::{ByteString, Value};
use vstd::prelude::*;

verus! {

/// A JSON value of `serde_json_bytes`. The crate carries such values around
/// and never looks inside one.
#[verifier::external_type_specification]
#[verifier::external_body]
pub struct ExValue(Value);

/// The string type that `serde_json_bytes` uses for the keys of an object.
#[verifier::external_type_specification]
#[verifier::external_body]
pub struct ExByteString(ByteString);

/// The map type of `serde_json_bytes`.
#[verifier::external_type_specification]
#[verifier::external_body]
#[verifier::reject_recursive_types(K)]
#[verifier::reject_recursive_types(V)]
pub struct ExMap<K, V>(serde_json_bytes::Map<K, V>);

/// A JSON object. This crate builds `serde_json_bytes` with `preserve_order`,
/// so an object keeps its keys in the order in which they were first inserted.
pub type Object = serde_json_bytes::Map<ByteString, Value>;

/// The entries of an object as mathematical data: each key with its value.
pub type Entries = Seq<(Seq<char>, Value)>;

/// What `Value::is_null` returns for `value`.
pub uninterp spec fn value_is_null(value: Value) -> bool;

/// What `Map::iter` yields for `object`: its keys, each with its value, in
/// the order of the object.
pub uninterp spec fn object_entries(object: Object) -> Entries;

/// The JSON value `null`: the value for which `value_is_null` holds.
pub open spec fn json_null() -> Value {
    choose|value: Value| value_is_null(value)
}

/// Whether some entry of `entries` has the key `name`.
pub open spec fn contains_key(entries: Entries, name: Seq<char>) -> bool {
    exists|i: int| 0 <= i < entries.len() && (#[trigger] entries[i]).0 == name
}

/// The entries after `name` has been given `value`: an entry that already has
/// that key keeps its place and takes the new value; if there is none, the
/// pair becomes the last entry.
pub open spec fn insert_entry(entries: Entries, name: Seq<char>, value: Value) -> Entries {
    if contains_key(entries, name) {
        Seq::new(
            entries.len(),
            |i: int|
                if entries[i].0 == name {
                    (name, value)
                } else {
                    entries[i]
                },
        )
    } else {
        entries.push((name, value))
    }
}

/// `Value::default()`. It returns `Value::Null`, the one value for which
/// `is_null` holds, so every call yields the same value.
pub assume_specification[ <Value as core::default::Default>::default ]() -> (value: Value)
    ensures
        value_is_null(value),
        value == json_null(),
;

/// `Map::default()`. It returns a map without entries.
pub assume_specification[ <serde_json_bytes::Map<
    ByteString,
    Value,
> as core::default::Default>::default ]() -> (object: serde_json_bytes::Map<ByteString, Value>)
    ensures
        object_entries(object) == Entries::empty(),
;

/// `Map::insert`, with the key given as a string slice. Under `preserve_order`
/// the map is an `IndexMap`: a key that is already present stays where it is
/// and gets the new value, a new key is added after all others. The value that
/// the call replaces is dropped.
#[verifier::external_body]
pub(crate) fn object_insert(object: &mut Object, name: &str, value: Value)
    ensures
        object_entries(*final(object)) == insert_entry(object_entries(*old(object)), name@, value),
{
    object.insert(name, value);
}

} // verus!
