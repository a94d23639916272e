//! The store's on-disk document format, through serde_yaml: a flat YAML
//! mapping from action names to key-combination strings.

use vstd::prelude::*;
use crate::bindings::{distinct_keys, pairs_map};

verus! {

/// The mapping that a YAML document denotes, where the document parses as a
/// flat string-to-string mapping, and `None` where it does not. The result
/// of parsing depends on the text alone.
pub uninterp spec fn yaml_map_of(text: Seq<char>) -> Option<Map<Seq<char>, Seq<char>>>;

/// Relies on serde_yaml::from_str: parsing is deterministic in the text, it
/// yields a string-to-string map exactly when the document is a flat YAML
/// mapping with string keys and string values, and its map has distinct keys.
#[verifier::external_body]
pub(crate) fn parse_yaml_map(text: &str) -> (r: Option<Vec<(String, String)>>)
    ensures
        match r {
            Some(v) => distinct_keys(v@) && yaml_map_of(text@) == Some(pairs_map(v@)),
            None => yaml_map_of(text@) is None,
        },
{
    match serde_yaml::from_str::<std::collections::BTreeMap<String, String>>(text) {
        Ok(m) => Some(m.into_iter().collect()),
        Err(_) => None,
    }
}

/// Relies on serde_yaml::to_string on a std::collections::BTreeMap with
/// string keys and string values: the document it emits parses back, with
/// serde_yaml::from_str, to the same entries (round-trip fidelity for flat
/// string maps, with ambiguous scalars quoted on output). Serializing such
/// a map does not fail: string keys and string values serialize infallibly,
/// and the emitter writes into an in-memory buffer that yields valid UTF-8,
/// so the call always returns a document.
#[verifier::external_body]
pub(crate) fn serialize_yaml_map(pairs: &Vec<(String, String)>) -> (r: Option<String>)
    requires
        distinct_keys(pairs@),
    ensures
        r is Some,
        r matches Some(text) ==> yaml_map_of(text@) == Some(pairs_map(pairs@)),
{
    let m: std::collections::BTreeMap<&str, &str> =
        pairs.iter().map(|p| (p.0.as_str(), p.1.as_str())).collect();
    serde_yaml::to_string(&m).ok()
}

} // verus!
