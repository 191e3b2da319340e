//! JSON documents, read and written by `serde_json`.
//!
//! A document is held as a `serde_json::Value`, which is opaque here. What it
//! holds is spoken of through [`json_tree`]; the functions of this module are
//! the only ones that look into a `Value` or build one, and their contracts
//! are trusted.

use vstd::prelude::*;

verus! {

/// A JSON document as `serde_json` holds it.
#[verifier::external_type_specification]
#[verifier::external_body]
pub struct ExValue(serde_json::Value);

/// What a JSON document holds, as far as the signaling protocol reads it.
pub enum JsonTree {
    /// A string.
    Text(Seq<char>),
    /// An array.
    Array(Seq<JsonTree>),
    /// An object: its members by key.
    Object(Map<Seq<char>, JsonTree>),
    /// Null, a boolean or a number.
    Other,
}

impl JsonTree {
    /// The string of a string document.
    pub open spec fn text(self) -> Option<Seq<char>> {
        match self {
            JsonTree::Text(s) => Some(s),
            _ => None,
        }
    }

    /// The items of an array.
    pub open spec fn items(self) -> Option<Seq<JsonTree>> {
        match self {
            JsonTree::Array(items) => Some(items),
            _ => None,
        }
    }

    /// The members of an object; of any other document, none.
    pub open spec fn members(self) -> Map<Seq<char>, JsonTree> {
        match self {
            JsonTree::Object(members) => members,
            _ => Map::empty(),
        }
    }

    /// The member of an object under `key`.
    pub open spec fn member(self, key: Seq<char>) -> Option<JsonTree> {
        if self.members().contains_key(key) {
            Some(self.members()[key])
        } else {
            None
        }
    }
}

/// What `value` holds.
pub uninterp spec fn json_tree(value: serde_json::Value) -> JsonTree;

/// What `serde_json::from_str` reads from `text` as a `Value`, if `text` is
/// one JSON document.
pub uninterp spec fn json_parse(text: Seq<char>) -> Option<JsonTree>;

/// Whether `tree` is made of strings, arrays and objects alone and nests at
/// most `depth` levels of arrays and objects.
pub open spec fn shallow(tree: JsonTree, depth: nat) -> bool
    decreases depth,
{
    match tree {
        JsonTree::Text(_) => true,
        JsonTree::Array(items) => depth > 0 && forall|i: int|
            0 <= i < items.len() ==> shallow(#[trigger] items[i], (depth - 1) as nat),
        JsonTree::Object(members) => depth > 0 && forall|k: Seq<char>|
            members.contains_key(k) ==> shallow(#[trigger] members[k], (depth - 1) as nat),
        JsonTree::Other => false,
    }
}

/// What each of `values` holds, in order.
pub open spec fn json_trees(values: Seq<serde_json::Value>) -> Seq<JsonTree> {
    values.map_values(|v: serde_json::Value| json_tree(v))
}

/// The members of an object built from `pairs`, a later pair replacing an
/// earlier one of the same key.
pub open spec fn members_of(pairs: Seq<(String, serde_json::Value)>) -> Map<Seq<char>, JsonTree>
    decreases pairs.len(),
{
    if pairs.len() == 0 {
        Map::empty()
    } else {
        members_of(pairs.drop_last()).insert(pairs.last().0@, json_tree(pairs.last().1))
    }
}

/// Whether no two of `pairs` have the same key.
pub open spec fn distinct_keys(pairs: Seq<(String, serde_json::Value)>) -> bool {
    forall|i: int, j: int|
        0 <= i < pairs.len() && 0 <= j < pairs.len() && i != j ==> pairs[i].0@ != pairs[j].0@
}

/// Calls `serde_json::from_str` for a `Value`. Trusted: whether it reads a
/// document, and which, depends on the text alone.
#[verifier::external_body]
pub(crate) fn value_from_text(text: &str) -> (r: Option<serde_json::Value>)
    ensures
        r is Some <==> json_parse(text@) is Some,
        r is Some ==> json_parse(text@) == Some(json_tree(r.unwrap())),
{
    serde_json::from_str::<serde_json::Value>(text).ok()
}

/// Formats `value` with its `Display` impl, which writes compact JSON.
/// Trusted: a document of strings, arrays and objects that nests at most 16
/// levels is read back from that text as it was.
#[verifier::external_body]
pub(crate) fn value_to_text(value: &serde_json::Value) -> (r: String)
    ensures
        shallow(json_tree(*value), 16) ==> json_parse(r@) == Some(json_tree(*value)),
{
    value.to_string()
}

/// Calls `Value::as_str`. Trusted: the string of a string document, `None`
/// for any other.
#[verifier::external_body]
pub(crate) fn value_text<'a>(value: &'a serde_json::Value) -> (r: Option<&'a str>)
    ensures
        r is Some <==> json_tree(*value).text() is Some,
        r is Some ==> Some(r.unwrap()@) == json_tree(*value).text(),
{
    value.as_str()
}

/// Calls `Value::get` with a string index. Trusted: the member of an object
/// under `key`, `None` where the document is no object or has no such member.
#[verifier::external_body]
pub(crate) fn value_member<'a>(value: &'a serde_json::Value, key: &str) -> (r: Option<&'a serde_json::Value>)
    ensures
        r is Some <==> json_tree(*value).member(key@) is Some,
        r is Some ==> Some(json_tree(*r.unwrap())) == json_tree(*value).member(key@),
{
    value.get(key)
}

/// Calls `Value::as_object` and `Map::len`. Trusted: the number of members of
/// an object, `None` for any other document.
#[verifier::external_body]
pub(crate) fn value_member_count(value: &serde_json::Value) -> (r: Option<usize>)
    ensures
        r is Some <==> json_tree(*value) is Object,
        r is Some ==> json_tree(*value).members().dom().finite(),
        r is Some ==> r.unwrap() == json_tree(*value).members().dom().len(),
{
    value.as_object().map(|m| m.len())
}

/// Calls `Value::as_array`. Trusted: the items of an array, `None` for any
/// other document.
#[verifier::external_body]
pub(crate) fn value_items<'a>(value: &'a serde_json::Value) -> (r: Option<&'a Vec<serde_json::Value>>)
    ensures
        r is Some <==> json_tree(*value).items() is Some,
        r is Some ==> Some(json_trees(r.unwrap()@)) == json_tree(*value).items(),
{
    value.as_array()
}

/// Builds `Value::String`. Trusted: a string document that holds `text`.
#[verifier::external_body]
pub(crate) fn text_value(text: String) -> (r: serde_json::Value)
    ensures
        json_tree(r) == JsonTree::Text(text@),
{
    serde_json::Value::String(text)
}

/// Builds `Value::Array`. Trusted: an array of `items`, in order.
#[verifier::external_body]
pub(crate) fn array_value(items: Vec<serde_json::Value>) -> (r: serde_json::Value)
    ensures
        json_tree(r) == JsonTree::Array(json_trees(items@)),
{
    serde_json::Value::Array(items)
}

/// Collects `members` into a `serde_json::Map` and builds `Value::Object`.
/// Trusted: an object whose members are those given.
#[verifier::external_body]
pub(crate) fn object_value(members: Vec<(String, serde_json::Value)>) -> (r: serde_json::Value)
    requires
        distinct_keys(members@),
    ensures
        json_tree(r) == JsonTree::Object(members_of(members@)),
{
    serde_json::Value::Object(members.into_iter().collect())
}

} // verus!
