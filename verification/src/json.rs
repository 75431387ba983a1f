//! The mathematical model of a JSON value and the trusted boundary to
//! `serde_json`, which owns the executable representation.

use serde_json::Value;
use vstd::prelude::*;

verus! {

/// A JSON number as the decoders see it: an integer of any size that the
/// parser keeps exactly, or a number with a fractional part or exponent.
pub enum JsonNumber {
    Int(int),
    Real { bits: u64 },
}

/// The model of a generic JSON value.
pub enum JsonTree {
    Null,
    Bool(bool),
    Number(JsonNumber),
    String(Seq<char>),
    Array(Seq<JsonTree>),
    Object(Map<Seq<char>, JsonTree>),
}

/// `serde_json::Value`, carried through the decoders as an opaque value.
#[verifier::external_type_specification]
#[verifier::external_body]
pub struct ExValue(serde_json::Value);

/// The JSON value that a `serde_json::Value` holds.
pub uninterp spec fn value_tree(v: Value) -> JsonTree;

/// What `serde_json::from_str` makes of a text: the value it parses to, or
/// the parser's diagnostic.
pub uninterp spec fn json_parse(text: Seq<char>) -> Result<JsonTree, Seq<char>>;

/// The member of an object under a key; `None` for a missing key and for
/// anything that is not an object.
pub open spec fn lookup(t: JsonTree, key: Seq<char>) -> Option<JsonTree> {
    match t {
        JsonTree::Object(m) => if m.contains_key(key) {
            Some(m[key])
        } else {
            None
        },
        _ => None,
    }
}

/// The string that a value is, if it is one.
pub open spec fn tree_as_str(t: JsonTree) -> Option<Seq<char>> {
    match t {
        JsonTree::String(s) => Some(s),
        _ => None,
    }
}

/// The value of a number that fits a signed 64-bit integer exactly.
pub open spec fn tree_as_i64(t: JsonTree) -> Option<i64> {
    match t {
        JsonTree::Number(JsonNumber::Int(i)) => if i64::MIN <= i <= i64::MAX {
            Some(i as i64)
        } else {
            None
        },
        _ => None,
    }
}

/// The members of an object; empty for anything else.
pub open spec fn members(t: JsonTree) -> Map<Seq<char>, JsonTree> {
    match t {
        JsonTree::Object(m) => m,
        _ => Map::empty(),
    }
}

/// `needle` occurs in `hay` as a contiguous run of characters.
pub open spec fn is_substring(hay: Seq<char>, needle: Seq<char>) -> bool {
    exists|i: int|
        0 <= i && i + needle.len() <= hay.len() && #[trigger] hay.subrange(
            i,
            i + needle.len(),
        ) == needle
}

/// Calls `serde_json::from_str` for a `Value`. The result is a function of
/// the text alone and is named by `json_parse`: on success the value
/// returned holds the parsed tree, on failure the error's display text is
/// the diagnostic.
#[verifier::external_body]
pub(crate) fn parse_text(input: &str) -> (r: Result<Value, String>)
    ensures
        match r {
            Ok(v) => json_parse(input@) == Ok::<JsonTree, Seq<char>>(value_tree(v)),
            Err(e) => json_parse(input@) == Err::<JsonTree, Seq<char>>(e@),
        },
{
    serde_json::from_str::<Value>(input).map_err(|e| e.to_string())
}

/// Calls `Value::get` with a string key: the member under that key when the
/// value is an object that has it, `None` otherwise.
#[verifier::external_body]
pub(crate) fn value_get<'a>(v: &'a Value, key: &str) -> (r: Option<&'a Value>)
    ensures
        match r {
            Some(f) => lookup(value_tree(*v), key@) == Some(value_tree(*f)),
            None => lookup(value_tree(*v), key@) is None,
        },
{
    v.get(key)
}

/// Calls `Value::as_str`: the text of a JSON string, `None` for every other
/// kind of value.
#[verifier::external_body]
pub(crate) fn value_as_str<'a>(v: &'a Value) -> (r: Option<&'a str>)
    ensures
        match r {
            Some(s) => tree_as_str(value_tree(*v)) == Some(s@),
            None => tree_as_str(value_tree(*v)) is None,
        },
{
    v.as_str()
}

/// Calls `Value::as_i64`: the integer of a JSON number that is an integer
/// within the signed 64-bit range, `None` for every other value.
#[verifier::external_body]
pub(crate) fn value_as_i64(v: &Value) -> (r: Option<i64>)
    ensures
        r == tree_as_i64(value_tree(*v)),
{
    v.as_i64()
}

/// Calls `Value::is_null`.
#[verifier::external_body]
pub(crate) fn value_is_null(v: &Value) -> (r: bool)
    ensures
        r == (value_tree(*v) is Null),
{
    v.is_null()
}

/// Calls `Value::is_object`.
#[verifier::external_body]
pub(crate) fn value_is_object(v: &Value) -> (r: bool)
    ensures
        r == (value_tree(*v) is Object),
{
    v.is_object()
}

/// `Value::clone`: the copy holds the same JSON value.
pub assume_specification[ <serde_json::Value as Clone>::clone ](v: &Value) -> (r: Value)
    ensures
        value_tree(r) == value_tree(*v),
;

/// Calls `Map::keys` on the object inside a value and copies the keys out:
/// every key of the object, each exactly once.
#[verifier::external_body]
pub(crate) fn object_keys(v: &Value) -> (r: Vec<String>)
    requires
        value_tree(*v) is Object,
    ensures
        forall|i: int, j: int| 0 <= i < j < r.len() ==> r[i]@ != r[j]@,
        forall|i: int| 0 <= i < r.len() ==> members(value_tree(*v)).contains_key(#[trigger] r[i]@),
        forall|k: Seq<char>| #[trigger]
            members(value_tree(*v)).contains_key(k) ==> exists|i: int|
                0 <= i < r.len() && #[trigger] r[i]@ == k,
{
    v.as_object().unwrap().keys().cloned().collect()
}

/// The compact JSON text that `serde_json` writes for a value.
pub uninterp spec fn json_text(t: JsonTree) -> Seq<char>;

/// Calls `Value::from` on a string slice: the JSON string of that text.
#[verifier::external_body]
pub(crate) fn value_of_str(s: &str) -> (r: Value)
    ensures
        value_tree(r) == JsonTree::String(s@),
{
    Value::from(s)
}

/// Calls `Value::from` on a signed integer: the JSON number of that
/// integer.
#[verifier::external_body]
pub(crate) fn value_of_i64(n: i64) -> (r: Value)
    ensures
        value_tree(r) == JsonTree::Number(JsonNumber::Int(n as int)),
{
    Value::from(n)
}

/// Makes `Value::Null`.
#[verifier::external_body]
pub(crate) fn value_null() -> (r: Value)
    ensures
        value_tree(r) is Null,
{
    Value::Null
}

/// Calls `Map::new` and makes a `Value::Object` of it: the object without
/// members.
#[verifier::external_body]
pub(crate) fn empty_object() -> (r: Value)
    ensures
        value_tree(r) == JsonTree::Object(Map::<Seq<char>, JsonTree>::empty()),
{
    Value::Object(serde_json::Map::new())
}

/// Calls `Map::insert` on the object inside a value: the member under the
/// key is set to the given value, added or replaced, and every other member
/// stays.
#[verifier::external_body]
pub(crate) fn object_insert(object: &mut Value, key: &str, member: Value)
    requires
        value_tree(*old(object)) is Object,
    ensures
        value_tree(*final(object)) == JsonTree::Object(
            members(value_tree(*old(object))).insert(key@, value_tree(member)),
        ),
{
    object.as_object_mut().unwrap().insert(key.to_owned(), member);
}

/// Calls `to_string` on a value, which writes it through its `Display`
/// impl: the compact text of the JSON value it holds.
#[verifier::external_body]
pub(crate) fn value_text(v: &Value) -> (r: String)
    ensures
        r@ == json_text(value_tree(*v)),
{
    v.to_string()
}

/// Calls `str::contains` with a string pattern.
#[verifier::external_body]
pub(crate) fn str_contains(hay: &str, needle: &str) -> (r: bool)
    ensures
        r == is_substring(hay@, needle@),
{
    hay.contains(needle)
}

} // verus!
