//! Field access into JSON text, through the gjson crate.

use vstd::prelude::*;
use crate::attrs::owned_pairs;

verus! {

/// The text of the value at `path` in `json`, as gjson reads it.
pub uninterp spec fn json_text_at(json: Seq<char>, path: Seq<char>) -> Seq<char>;

/// The JSON text of each element of the array at `path` in `json`.
pub uninterp spec fn json_elements_at(json: Seq<char>, path: Seq<char>) -> Seq<Seq<char>>;

/// The key/value texts of the object at `path` in `json`, in document order.
pub uninterp spec fn json_entries_at(json: Seq<char>, path: Seq<char>) -> Seq<(Seq<char>, Seq<char>)>;

/// Relies on `gjson::get` and `Value::str`: the text of the value at `path`
/// (a string unquoted, other values as their JSON text, empty when absent).
#[verifier::external_body]
pub(crate) fn json_str(json: &str, path: &str) -> (r: String)
    ensures
        r@ == json_text_at(json@, path@),
{
    gjson::get(json, path).str().to_string()
}

/// Relies on `gjson::get`, `Value::array` and `Value::json`: the JSON text of
/// each element of the array at `path`, in order.
#[verifier::external_body]
pub(crate) fn json_array(json: &str, path: &str) -> (r: Vec<String>)
    ensures
        r@.map_values(|s: String| s@) == json_elements_at(json@, path@),
{
    gjson::get(json, path).array().iter().map(|v| v.json().to_string()).collect()
}

/// Relies on `gjson::get` and `Value::each`: every key/value of the object
/// at `path`, each as its text, in document order.
#[verifier::external_body]
pub(crate) fn json_entries(json: &str, path: &str) -> (r: Vec<(String, String)>)
    ensures
        owned_pairs(r@) == json_entries_at(json@, path@),
{
    let mut entries = Vec::new();
    gjson::get(json, path).each(|key, value| {
        entries.push((key.to_string(), value.to_string()));
        true
    });
    entries
}

} // verus!
