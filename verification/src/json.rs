//! JSON values, carried as `serde_json::Value` and described in contracts
//! by their compact text.

use vstd::prelude::*;

verus! {

/// `serde_json::Value`, taken as it is: nothing inside a value is open to
/// proofs, which know it by its compact text alone.
#[verifier::external_type_specification]
#[verifier::external_body]
pub struct ExValue(serde_json::Value);

/// The compact JSON text of `value`: what its `Display` writes.
pub uninterp spec fn json_text(value: serde_json::Value) -> Seq<char>;

/// The compact text of the value that `text` decodes to, or `None` where
/// `text` is not one JSON document.
pub uninterp spec fn json_decoded(text: Seq<char>) -> Option<Seq<char>>;

/// The JSON text of the string `s`: quoted, with its characters escaped.
pub uninterp spec fn json_quoted(s: Seq<char>) -> Seq<char>;

/// The compact text of the JSON object collected from `entries`, each a
/// key with the text of its value.
pub uninterp spec fn json_object(entries: Seq<(Seq<char>, Seq<char>)>) -> Seq<char>;

/// The texts `items` one behind the other, with a comma between each two.
pub open spec fn comma_separated(items: Seq<Seq<char>>) -> Seq<char>
    decreases items.len(),
{
    if items.len() == 0 {
        Seq::empty()
    } else if items.len() == 1 {
        items[0]
    } else {
        comma_separated(items.drop_last()) + ","@ + items.last()
    }
}

/// The compact text of the JSON array whose items have the texts `items`:
/// the items in square brackets, with a comma between each two.
pub open spec fn json_array(items: Seq<Seq<char>>) -> Seq<char> {
    "["@ + comma_separated(items) + "]"@
}

/// The texts of `values`, in order.
pub open spec fn json_texts(values: Seq<serde_json::Value>) -> Seq<Seq<char>> {
    values.map_values(|v: serde_json::Value| json_text(v))
}

/// The keys of `entries` with the texts of their values, in order.
pub open spec fn json_entries(entries: Seq<(String, serde_json::Value)>) -> Seq<
    (Seq<char>, Seq<char>),
> {
    entries.map_values(|e: (String, serde_json::Value)| (e.0@, json_text(e.1)))
}

/// `Clone` of `serde_json::Value`: the copy is the same JSON value and so
/// has the same text.
pub assume_specification[ <serde_json::Value as Clone>::clone ](
    value: &serde_json::Value,
) -> (copy: serde_json::Value)
    ensures
        json_text(copy) == json_text(*value),
;

/// `serde_json::from_str` at type `Value`: decodes `text` as one JSON
/// document. Whether it decodes, and to which value, depends on `text`
/// alone; the value is known by its compact text.
#[verifier::external_body]
pub(crate) fn decode(text: &str) -> (value: Option<serde_json::Value>)
    ensures
        match value {
            Some(v) => json_decoded(text@) == Some(json_text(v)),
            None => json_decoded(text@) is None,
        },
{
    serde_json::from_str(text).ok()
}

/// `Display` of `serde_json::Value`: writes the value as compact JSON.
#[verifier::external_body]
pub(crate) fn encode(value: &serde_json::Value) -> (text: String)
    ensures
        text@ == json_text(*value),
{
    value.to_string()
}

/// `serde_json::Value::String`: the JSON string that holds `s`. Its
/// compact text depends on `s` alone.
#[verifier::external_body]
pub(crate) fn string_value(s: &str) -> (value: serde_json::Value)
    ensures
        json_text(value) == json_quoted(s@),
{
    serde_json::Value::String(s.to_string())
}

/// `serde_json::Value::Array`: the JSON array of `items`, in order. Its
/// compact text is the texts of the items in square brackets, with a
/// comma between each two.
#[verifier::external_body]
pub(crate) fn array_value(items: Vec<serde_json::Value>) -> (value: serde_json::Value)
    ensures
        json_text(value) == json_array(json_texts(items@)),
{
    serde_json::Value::Array(items)
}

/// `serde_json::Value::Object` over a `serde_json::Map` collected from
/// `entries`: the JSON object that holds the keys with their values. Its
/// compact text depends on the keys and on the texts of the values alone.
#[verifier::external_body]
pub(crate) fn object_value(entries: Vec<(String, serde_json::Value)>) -> (value: serde_json::Value)
    ensures
        json_text(value) == json_object(json_entries(entries@)),
{
    serde_json::Value::Object(entries.into_iter().collect())
}

} // verus!
