//! A cheap admission filter in front of the decoders.

use crate::json::{
    is_substring, json_parse, lookup, parse_text, value_as_str, value_get, value_tree, JsonTree,
};
use serde_json::Value;
use vstd::prelude::*;

verus! {

/// The value has a member `jsonrpc` that is the string "2.0".
pub open spec fn names_version_two(t: JsonTree) -> bool {
    lookup(t, "jsonrpc"@) == Some(JsonTree::String("2.0"@))
}

/// The filter's verdict on a text: both quoted markers occur somewhere in
/// it, it parses, and the parsed value names version "2.0". The scan for
/// the markers knows nothing of JSON, so a text can pass it on markers that
/// sit inside an unrelated string; the parse then decides.
pub open spec fn plausible(text: Seq<char>) -> bool {
    &&& is_substring(text, "\"jsonrpc\""@)
    &&& is_substring(text, "\"2.0\""@)
    &&& json_parse(text) matches Ok(t) && names_version_two(t)
}

/// Whether a parsed value names version "2.0".
pub fn has_version_two(v: &Value) -> (r: bool)
    ensures
        r == names_version_two(value_tree(*v)),
{
    match value_get(v, "jsonrpc") {
        None => false,
        Some(f) => match value_as_str(f) {
            None => false,
            Some(s) => {
                let found = s.to_owned();
                let wanted = "2.0".to_owned();
                found == wanted
            },
        },
    }
}

/// Whether a text is plausibly a JSON-RPC 2.0 message. Never fails: every
/// problem is a plain `false`.
pub fn is_valid_jsonrpc(input: &str) -> (r: bool)
    ensures
        r == plausible(input@),
{
    if !crate::json::str_contains(input, "\"jsonrpc\"") {
        return false;
    }
    if !crate::json::str_contains(input, "\"2.0\"") {
        return false;
    }
    match parse_text(input) {
        Ok(v) => has_version_two(&v),
        Err(_) => false,
    }
}

} // verus!
