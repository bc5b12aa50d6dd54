//! JSON objects of text, as workflow dispatches carry them.

use vstd::prelude::*;

verus! {

/// A JSON value of `serde_json`.
#[verifier::external_type_specification]
#[verifier::external_body]
pub struct ExValue(serde_json::Value);

/// A JSON object of `serde_json`.
#[verifier::external_type_specification]
#[verifier::external_body]
#[verifier::reject_recursive_types(K)]
#[verifier::reject_recursive_types(V)]
pub struct ExMap<K, V>(serde_json::Map<K, V>);

/// The entries of a JSON object: under each of its keys the text, where the
/// value is a string, and `None` where it is anything else.
pub uninterp spec fn entries(
    object: serde_json::Map<String, serde_json::Value>,
) -> Map<Seq<char>, Option<Seq<char>>>;

/// No entries.
pub open spec fn no_entries() -> Map<Seq<char>, Option<Seq<char>>> {
    Map::empty()
}

/// `serde_json::Map::new` makes an object without entries.
#[verifier::external_body]
pub(crate) fn new_object() -> (object: serde_json::Map<String, serde_json::Value>)
    ensures
        entries(object) == no_entries(),
{
    serde_json::Map::new()
}

/// `serde_json::Map::insert` with a string value sets the entry of `key` and
/// leaves the others.
#[verifier::external_body]
pub(crate) fn insert_text(
    object: &mut serde_json::Map<String, serde_json::Value>,
    key: &str,
    value: &str,
)
    ensures
        entries(*final(object)) == entries(*old(object)).insert(key@, Some(value@)),
{
    object.insert(key.to_owned(), serde_json::Value::String(value.to_owned()));
}

} // verus!
