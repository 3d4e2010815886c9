//! A JSON document as a tree of plain values, with the lookups the mappers need.
//!
//! Text is turned into a tree, and a tree back into text, by `serde_json`; everything
//! in between is done here on the tree itself.

use vstd::prelude::*;

verus! {

/// A JSON value. An object keeps its members in a list; a lookup takes the first
/// member that carries the key.
#[derive(Debug)]
pub enum Json {
    Null,
    Bool(bool),
    /// A number, held as the text `serde_json` prints for it.
    Number(String),
    Text(String),
    Array(Vec<Json>),
    Object(Vec<(String, Json)>),
}

/// `serde_json::Value`, which the conversions below take apart and put together.
#[verifier::external_type_specification]
#[verifier::external_body]
pub struct ExValue(serde_json::Value);

/// What `serde_json::from_str` makes of a text: the tree it describes, or `None`
/// where the text is not one JSON value.
pub uninterp spec fn json_parse(text: Seq<char>) -> Option<Json>;

/// The compact text that `serde_json` prints for a value.
pub uninterp spec fn json_text(value: Json) -> Seq<char>;

/// Whether a text is printed as it stands: it holds no quote mark, no backslash
/// and no control character below U+0020, the characters that are escaped.
pub open spec fn is_plain(text: Seq<char>) -> bool {
    forall|i: int|
        0 <= i < text.len() ==> {
            let c = #[trigger] text[i];
            c != '"' && c != '\\' && c as u32 >= 0x20
        }
}

/// `text` between two quote marks.
pub open spec fn quoted(text: Seq<char>) -> Seq<char> {
    seq!['"'] + text + seq!['"']
}

/// Copies a `serde_json::Value` into a tree, variant by variant; a number is kept as
/// the text `serde_json::Number` displays. Nothing is claimed of the result here.
#[verifier::external_body]
fn lift(value: &serde_json::Value) -> Json {
    match value {
        serde_json::Value::Null => Json::Null,
        serde_json::Value::Bool(b) => Json::Bool(*b),
        serde_json::Value::Number(n) => Json::Number(n.to_string()),
        serde_json::Value::String(s) => Json::Text(s.clone()),
        serde_json::Value::Array(items) => Json::Array(items.iter().map(lift).collect()),
        serde_json::Value::Object(members) => Json::Object(
            members.iter().map(|(k, v)| (k.clone(), lift(v))).collect(),
        ),
    }
}

/// Copies a tree into a `serde_json::Value`, variant by variant; a number is read
/// back by `serde_json::from_str`. Nothing is claimed of the result here.
#[verifier::external_body]
fn lower(value: &Json) -> serde_json::Value {
    match value {
        Json::Null => serde_json::Value::Null,
        Json::Bool(b) => serde_json::Value::Bool(*b),
        Json::Number(n) => serde_json::from_str(n).unwrap_or(serde_json::Value::Null),
        Json::Text(s) => serde_json::Value::String(s.clone()),
        Json::Array(items) => serde_json::Value::Array(items.iter().map(lower).collect()),
        Json::Object(members) => serde_json::Value::Object(
            members.iter().map(|(k, v)| (k.clone(), lower(v))).collect(),
        ),
    }
}

/// `serde_json::from_str` at type `serde_json::Value`. The contract only names the
/// result: the same text always gives the same tree.
#[verifier::external_body]
fn parse_text(text: &str) -> (r: Option<Json>)
    ensures
        r == json_parse(text@),
{
    match serde_json::from_str::<serde_json::Value>(text) {
        Ok(value) => Some(lift(&value)),
        Err(_) => None,
    }
}

/// `serde_json::Value`'s `to_string`. The contract names the result, the same
/// tree always printing as the same text, and states the two cases that the
/// mappers tell apart: `null` prints as the word `null`, and a string that needs
/// no escaping prints as itself between quote marks.
#[verifier::external_body]
fn print_text(value: &Json) -> (r: String)
    ensures
        r@ == json_text(*value),
        *value is Null ==> r@ == "null"@,
        value matches Json::Text(text) ==> (is_plain(text@) ==> r@ == quoted(text@)),
{
    lower(value).to_string()
}

/// The position of the first member of `members` whose key is `key`, if there is one.
pub open spec fn first_with_key(members: Seq<(String, Json)>, key: Seq<char>) -> Option<int> {
    if exists|i: int| 0 <= i < members.len() && (#[trigger] members[i]).0@ == key {
        Some(
            choose|i: int|
                0 <= i < members.len() && (#[trigger] members[i]).0@ == key && forall|j: int|
                    0 <= j < i ==> (#[trigger] members[j]).0@ != key,
        )
    } else {
        None
    }
}

/// `first_with_key` names `i` exactly when `i` holds the key and nothing before it does.
pub proof fn lemma_first_with_key(members: Seq<(String, Json)>, key: Seq<char>, i: int)
    requires
        0 <= i < members.len(),
        members[i].0@ == key,
        forall|j: int| 0 <= j < i ==> (#[trigger] members[j]).0@ != key,
    ensures
        first_with_key(members, key) == Some(i),
{
    let k = choose|k: int|
        0 <= k < members.len() && (#[trigger] members[k]).0@ == key && forall|j: int|
            0 <= j < k ==> (#[trigger] members[j]).0@ != key;
    assert(k == i) by {
        if k < i {
            assert(members[k].0@ != key);
        } else if i < k {
            assert(members[i].0@ != key);
        }
    }
}

/// The position of the first member of `members` whose key is `key`.
pub fn find_key(members: &Vec<(String, Json)>, key: &str) -> (r: Option<usize>)
    ensures
        match r {
            Some(i) => first_with_key(members@, key@) == Some(i as int) && i < members@.len(),
            None => first_with_key(members@, key@) is None,
        },
{
    let wanted = key.to_owned();
    let mut i: usize = 0;
    while i < members.len()
        invariant
            i <= members@.len(),
            wanted@ == key@,
            forall|j: int| 0 <= j < i ==> (#[trigger] members@[j]).0@ != key@,
        decreases members@.len() - i,
    {
        if members[i].0 == wanted {
            proof {
                lemma_first_with_key(members@, key@, i as int);
            }
            return Some(i);
        }
        i += 1;
    }
    None
}

/// The member of `node` stored under `name`: `None` unless `node` is an object that
/// has one. A missing node has no members, so lookups can be chained.
pub open spec fn spec_key<'a>(node: Option<&'a Json>, name: &str) -> Option<&'a Json> {
    match node {
        Some(Json::Object(members)) => match first_with_key(members@, name@) {
            Some(i) => Some(&members@[i].1),
            None => None,
        },
        _ => None,
    }
}

/// The element of `node` at `index`: `None` unless `node` is an array that long.
pub open spec fn spec_at<'a>(node: Option<&'a Json>, index: usize) -> Option<&'a Json> {
    match node {
        Some(Json::Array(items)) => if index < items@.len() {
            Some(&items@[index as int])
        } else {
            None
        },
        _ => None,
    }
}

/// Whether a lookup found nothing to read: no node at all, or the value `null`.
pub open spec fn spec_is_absent(node: Option<&Json>) -> bool {
    match node {
        Some(Json::Null) | None => true,
        _ => false,
    }
}

/// The elements of `node` where it is an array.
pub open spec fn spec_items<'a>(node: Option<&'a Json>) -> Option<&'a Vec<Json>> {
    match node {
        Some(Json::Array(items)) => Some(items),
        _ => None,
    }
}

/// The member of `node` stored under `name`, if `node` is an object that has one.
#[verifier::when_used_as_spec(spec_key)]
pub fn key<'a>(node: Option<&'a Json>, name: &str) -> (r: Option<&'a Json>)
    ensures
        r == spec_key(node, name),
{
    match node {
        Some(Json::Object(members)) => match find_key(members, name) {
            Some(i) => Some(&members[i].1),
            None => None,
        },
        _ => None,
    }
}

/// The element of `node` at `index`, if `node` is an array that long.
#[verifier::when_used_as_spec(spec_at)]
pub fn at<'a>(node: Option<&'a Json>, index: usize) -> (r: Option<&'a Json>)
    ensures
        r == spec_at(node, index),
{
    match node {
        Some(Json::Array(items)) => if index < items.len() {
            Some(&items[index])
        } else {
            None
        },
        _ => None,
    }
}

/// Whether a lookup found nothing to read: no node at all, or the value `null`.
#[verifier::when_used_as_spec(spec_is_absent)]
pub fn is_absent(node: Option<&Json>) -> (r: bool)
    ensures
        r == spec_is_absent(node),
{
    match node {
        Some(Json::Null) | None => true,
        _ => false,
    }
}

/// The elements of `node` where it is an array; `None` for anything else.
#[verifier::when_used_as_spec(spec_items)]
pub fn items<'a>(node: Option<&'a Json>) -> (r: Option<&'a Vec<Json>>)
    ensures
        r == spec_items(node),
{
    match node {
        Some(Json::Array(items)) => Some(items),
        _ => None,
    }
}

/// A borrowed look at an owned node, for use in contracts.
pub open spec fn borrowed<'a>(node: &'a Option<Json>) -> Option<&'a Json> {
    match node {
        Some(value) => Some(value),
        None => None,
    }
}

/// Like `key`, but hands the member over instead of lending it.
pub fn take_key(node: Option<Json>, name: &str) -> (r: Option<Json>)
    ensures
        borrowed(&r) == spec_key(borrowed(&node), name),
{
    match node {
        Some(Json::Object(members)) => {
            let mut members = members;
            match find_key(&members, name) {
                Some(i) => {
                    let member = members.remove(i);
                    Some(member.1)
                },
                None => None,
            }
        },
        _ => None,
    }
}

/// Like `at`, but hands the element over instead of lending it.
pub fn take_at(node: Option<Json>, index: usize) -> (r: Option<Json>)
    ensures
        borrowed(&r) == spec_at(borrowed(&node), index),
{
    match node {
        Some(Json::Array(items)) => {
            let mut items = items;
            if index < items.len() {
                Some(items.remove(index))
            } else {
                None
            }
        },
        _ => None,
    }
}

/// Like `items`, but hands the elements over instead of lending them.
pub fn take_items(node: Option<Json>) -> (r: Option<Vec<Json>>)
    ensures
        match r {
            Some(list) => spec_items(borrowed(&node)) == Some(&list),
            None => spec_items(borrowed(&node)) is None,
        },
{
    match node {
        Some(Json::Array(items)) => Some(items),
        _ => None,
    }
}

/// The compact text of what a lookup found; a missing node prints as `null` does.
pub open spec fn node_text(node: Option<&Json>) -> Seq<char> {
    match node {
        Some(value) => json_text(*value),
        None => json_text(Json::Null),
    }
}

/// The compact text of what a lookup found; a missing node prints as `null` does.
pub fn render(node: Option<&Json>) -> (r: String)
    ensures
        r@ == node_text(node),
        is_absent(node) ==> r@ == "null"@,
        node matches Some(Json::Text(text)) ==> (is_plain(text@) ==> r@ == quoted(text@)),
{
    match node {
        Some(value) => print_text(value),
        None => print_text(&Json::Null),
    }
}

impl Json {
    /// Reads `text` as one JSON value.
    pub fn parse(text: &str) -> (r: Option<Json>)
        ensures
            r == json_parse(text@),
    {
        parse_text(text)
    }
}

} // verus!
