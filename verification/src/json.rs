//! The JSON parsing that the tracker leaves to `serde_json`.

use crate::props::{entries_map, keys_distinct, pairs_view};
use vstd::prelude::*;

verus! {

#[verifier::external_type_specification]
#[verifier::external_body]
pub struct ExJsonError(serde_json::Error);

/// What `serde_json` reads from `text` as a JSON object whose values are all
/// strings: the map from each key to its value (for a key given twice, the
/// later value), or `None` where `text` is no such object.
pub uninterp spec fn json_string_map(text: Seq<char>) -> Option<Map<Seq<char>, Seq<char>>>;

/// Calls `serde_json::from_str` to read `text` into a
/// `HashMap<String, String>` and hands its entries out as pairs. Trusted: the
/// call fails exactly where `json_string_map` is `None`; otherwise the pairs,
/// in whatever order the hash map yields them, hold each key once and denote
/// the map that `json_string_map` gives.
#[verifier::external_body]
pub(crate) fn parse_string_map(text: &str) -> (r: Result<Vec<(String, String)>, serde_json::Error>)
    ensures
        match r {
            Ok(v) => {
                &&& json_string_map(text@) == Some(entries_map(pairs_view(v@)))
                &&& keys_distinct(pairs_view(v@))
            },
            Err(_) => json_string_map(text@) is None,
        },
{
    match serde_json::from_str::<std::collections::HashMap<String, String>>(text) {
        Ok(m) => Ok(m.into_iter().collect()),
        Err(e) => Err(e),
    }
}

} // verus!
