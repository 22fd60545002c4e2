//! JSON documents, read through `serde_json`. A parsed `serde_json::Value` is
//! opaque to proofs; `json_tree` names the tree that it holds, and the
//! accessors below are stated over that tree.

use vstd::prelude::*;

verus! {

/// A JSON tree. Integers that `serde_json` keeps as integers (those that fit
/// in `u64` or `i64`) are `Int`; every other number is `Real`.
pub enum JsonTree {
    Null,
    Bool(bool),
    Int(int),
    Real,
    Str(Seq<char>),
    Arr(Seq<JsonTree>),
    Obj(Map<Seq<char>, JsonTree>),
}

#[verifier::external_type_specification]
#[verifier::external_body]
pub struct ExValue(serde_json::Value);

/// The tree that a `serde_json::Value` holds.
pub uninterp spec fn json_tree(v: serde_json::Value) -> JsonTree;

/// The tree that `serde_json::from_str` reads from a text, or `None` where the
/// text is not JSON.
pub uninterp spec fn json_parse(text: Seq<char>) -> Option<JsonTree>;

/// The member `key` of an object; `None` for a missing key or a non-object.
pub open spec fn member(t: JsonTree, key: Seq<char>) -> Option<JsonTree> {
    match t {
        JsonTree::Obj(m) => if m.contains_key(key) {
            Some(m[key])
        } else {
            None
        },
        _ => None,
    }
}

/// The value of an integer that fits in `i64`.
pub open spec fn small_int(t: JsonTree) -> Option<i64> {
    match t {
        JsonTree::Int(n) => if i64::MIN <= n <= i64::MAX {
            Some(n as i64)
        } else {
            None
        },
        _ => None,
    }
}

pub open spec fn trees(items: Seq<serde_json::Value>) -> Seq<JsonTree> {
    items.map_values(|x: serde_json::Value| json_tree(x))
}

/// Relies on `serde_json::from_str::<Value>`: the document, or `None` for a
/// text that is not JSON.
#[verifier::external_body]
pub(crate) fn parse_json(text: &str) -> (r: Option<serde_json::Value>)
    ensures
        r is None <==> json_parse(text@) is None,
        r matches Some(v) ==> json_parse(text@) == Some(json_tree(v)),
{
    serde_json::from_str::<serde_json::Value>(text).ok()
}

/// Relies on `serde_json::Value::get` with a string key: the member of an
/// object, `None` for a missing key or any other kind of value.
#[verifier::external_body]
pub(crate) fn get_member<'a>(v: &'a serde_json::Value, key: &str) -> (r: Option<&'a serde_json::Value>)
    ensures
        r is None <==> member(json_tree(*v), key@) is None,
        r matches Some(x) ==> member(json_tree(*v), key@) == Some(json_tree(*x)),
{
    v.get(key)
}

/// Relies on `serde_json::Value::as_array`: the items of an array, `None` for
/// any other kind of value.
#[verifier::external_body]
pub(crate) fn as_array<'a>(v: &'a serde_json::Value) -> (r: Option<&'a Vec<serde_json::Value>>)
    ensures
        r is None <==> !(json_tree(*v) is Arr),
        r matches Some(a) ==> json_tree(*v) == JsonTree::Arr(trees(a@)),
{
    v.as_array()
}

/// Relies on `serde_json::Value::as_i64`: an integer that fits in `i64`.
#[verifier::external_body]
pub(crate) fn as_i64(v: &serde_json::Value) -> (r: Option<i64>)
    ensures
        r == small_int(json_tree(*v)),
{
    v.as_i64()
}

/// Relies on `serde_json::Value::as_str`: the text of a string, `None` for any
/// other kind of value.
#[verifier::external_body]
pub(crate) fn as_str<'a>(v: &'a serde_json::Value) -> (r: Option<&'a str>)
    ensures
        r is None <==> !(json_tree(*v) is Str),
        r matches Some(s) ==> json_tree(*v) == JsonTree::Str(s@),
{
    v.as_str()
}

} // verus!
