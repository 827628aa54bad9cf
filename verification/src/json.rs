//! JSON documents as trees of plain values.
//!
//! Text is parsed and printed by `serde_json`; everything that reads or
//! builds a tree is verified against the mathematical model [`JsonValue`].

use vstd::prelude::*;
use vstd::string::*;

verus! {

/// A JSON document.
///
/// An object keeps its members as a list of name and value, in the order in
/// which `serde_json` walks them.
#[derive(Debug, PartialEq)]
pub enum Json {
    Null,
    Bool(bool),
    /// A number: its value where it is an integer that fits in `i64`,
    /// `None` for every other number.
    Number(Option<i64>),
    Str(String),
    Array(Vec<Json>),
    Object(Vec<(String, Json)>),
}

/// The mathematical model of a [`Json`] tree.
pub enum JsonValue {
    Null,
    Bool(bool),
    Number(Option<i64>),
    Str(Seq<char>),
    Array(Seq<JsonValue>),
    Object(Seq<(Seq<char>, JsonValue)>),
}

/// The model of a tree: the same shape with every string and vector
/// replaced by its view.
pub open spec fn json_value(j: Json) -> JsonValue
    decreases j,
{
    match j {
        Json::Null => JsonValue::Null,
        Json::Bool(b) => JsonValue::Bool(b),
        Json::Number(n) => JsonValue::Number(n),
        Json::Str(s) => JsonValue::Str(s@),
        Json::Array(items) => JsonValue::Array(
            Seq::new(
                items@.len(),
                |i: int|
                    if 0 <= i < items@.len() {
                        json_value(items@[i])
                    } else {
                        JsonValue::Null
                    },
            ),
        ),
        Json::Object(members) => JsonValue::Object(
            Seq::new(
                members@.len(),
                |i: int|
                    if 0 <= i < members@.len() {
                        (members@[i].0@, json_value(members@[i].1))
                    } else {
                        (Seq::empty(), JsonValue::Null)
                    },
            ),
        ),
    }
}

impl View for Json {
    type V = JsonValue;

    open spec fn view(&self) -> JsonValue {
        json_value(*self)
    }
}

/// The model of an optional tree.
pub open spec fn optional_value(j: Option<Json>) -> Option<JsonValue> {
    match j {
        Some(j) => Some(j@),
        None => None,
    }
}

/// The members of an object, each name and value by its model.
pub open spec fn member_values(members: Seq<(String, Json)>) -> Seq<(Seq<char>, JsonValue)> {
    Seq::new(members.len(), |i: int| (members[i].0@, members[i].1@))
}

/// The items of an array, each by its model.
pub open spec fn item_values(items: Seq<Json>) -> Seq<JsonValue> {
    Seq::new(items.len(), |i: int| items[i]@)
}

/// The model of an object is made of the models of its members.
pub proof fn lemma_object_value(members: Vec<(String, Json)>)
    ensures
        Json::Object(members)@ == JsonValue::Object(member_values(members@)),
{
    assert(Json::Object(members)@->Object_0 =~= member_values(members@));
}

/// The model of an array is made of the models of its items.
pub proof fn lemma_array_value(items: Vec<Json>)
    ensures
        Json::Array(items)@ == JsonValue::Array(item_values(items@)),
{
    assert(Json::Array(items)@->Array_0 =~= item_values(items@));
}

/// The value of the first member called `key`, if there is one.
pub open spec fn member(members: Seq<(Seq<char>, JsonValue)>, key: Seq<char>) -> Option<JsonValue>
    decreases members.len(),
{
    if members.len() == 0 {
        None
    } else if members[0].0 == key {
        Some(members[0].1)
    } else {
        member(members.drop_first(), key)
    }
}

/// The integer under `key`: the member is there and is a number with an
/// `i64` value.
pub open spec fn int_at(members: Seq<(Seq<char>, JsonValue)>, key: Seq<char>) -> Option<i64> {
    match member(members, key) {
        Some(JsonValue::Number(Some(n))) => Some(n),
        _ => None,
    }
}

/// The text under `key`: the member is there and is a string.
pub open spec fn text_at(members: Seq<(Seq<char>, JsonValue)>, key: Seq<char>) -> Option<Seq<char>> {
    match member(members, key) {
        Some(JsonValue::Str(s)) => Some(s),
        _ => None,
    }
}

/// The items under `key`: the member is there and is an array.
pub open spec fn items_at(members: Seq<(Seq<char>, JsonValue)>, key: Seq<char>) -> Option<
    Seq<JsonValue>,
> {
    match member(members, key) {
        Some(JsonValue::Array(items)) => Some(items),
        _ => None,
    }
}

/// Looks a member up by name.
pub fn find<'a>(members: &'a Vec<(String, Json)>, key: &str) -> (r: Option<&'a Json>)
    ensures
        r matches Some(j) ==> member(member_values(members@), key@) == Some(j@),
        r is None ==> member(member_values(members@), key@) is None,
{
    let wanted = String::from_str(key);
    let ghost all = member_values(members@);
    let mut i: usize = 0;
    assert(all.skip(0) =~= all);
    while i < members.len()
        invariant
            i <= members.len(),
            wanted@ == key@,
            all == member_values(members@),
            member(all, key@) == member(all.skip(i as int), key@),
        decreases members.len() - i,
    {
        if members[i].0 == wanted {
            return Some(&members[i].1);
        }
        proof {
            assert(all.skip(i as int).drop_first() =~= all.skip(i + 1));
        }
        i += 1;
    }
    None
}

/// The integer under `key`, where the member is one.
pub fn int_member(members: &Vec<(String, Json)>, key: &str) -> (r: Option<i64>)
    ensures
        r == int_at(member_values(members@), key@),
{
    match find(members, key) {
        Some(Json::Number(Some(n))) => Some(*n),
        _ => None,
    }
}

/// The text under `key`, where the member is a string.
pub fn text_member(members: &Vec<(String, Json)>, key: &str) -> (r: Option<String>)
    ensures
        r matches Some(s) ==> text_at(member_values(members@), key@) == Some(s@),
        r is None ==> text_at(member_values(members@), key@) is None,
{
    match find(members, key) {
        Some(Json::Str(s)) => Some(s.clone()),
        _ => None,
    }
}

/// The items under `key`, where the member is an array.
pub fn items_member<'a>(members: &'a Vec<(String, Json)>, key: &str) -> (r: Option<&'a Vec<Json>>)
    ensures
        r matches Some(items) ==> items_at(member_values(members@), key@) == Some(
            item_values(items@),
        ),
        r is None ==> items_at(member_values(members@), key@) is None,
{
    match find(members, key) {
        Some(Json::Array(items)) => {
            proof {
                lemma_array_value(*items);
            }
            Some(items)
        },
        _ => None,
    }
}

/// A member whose name no earlier member bears is the one that a lookup of
/// that name finds.
pub proof fn lemma_member_at(members: Seq<(Seq<char>, JsonValue)>, i: int, key: Seq<char>)
    requires
        0 <= i < members.len(),
        members[i].0 == key,
        forall|k: int| 0 <= k < i ==> members[k].0 != key,
    ensures
        member(members, key) == Some(members[i].1),
    decreases i,
{
    if i > 0 {
        lemma_member_at(members.drop_first(), i - 1, key);
    }
}

/// One member of an object under construction.
pub fn entry(key: &str, value: Json) -> (r: (String, Json))
    ensures
        r.0@ == key@,
        r.1 == value,
{
    (String::from_str(key), value)
}

/// `serde_json::Value`, the parser's own tree. Nothing is known of a value
/// of it; it is only handed from and to the parser and the printer.
#[verifier::external_type_specification]
#[verifier::external_body]
pub struct ExValue(serde_json::Value);

/// What `serde_json::from_slice` makes of a text: the document as a tree, or
/// `None` where it reports an error.
pub uninterp spec fn json_parse(text: Seq<u8>) -> Option<JsonValue>;

/// What `serde_json::to_string` prints for a tree, or `None` where it
/// reports an error.
pub uninterp spec fn json_print(value: JsonValue) -> Option<Seq<char>>;

/// Rebuilds a `serde_json::Value` as a [`Json`], node for node. A number is
/// kept as `serde_json::Number::as_i64` gives it. Nothing is claimed here;
/// the contract is that of [`parse`].
#[verifier::external_body]
fn from_value(v: serde_json::Value) -> Json {
    match v {
        serde_json::Value::Null => Json::Null,
        serde_json::Value::Bool(b) => Json::Bool(b),
        serde_json::Value::Number(n) => Json::Number(n.as_i64()),
        serde_json::Value::String(s) => Json::Str(s),
        serde_json::Value::Array(a) => Json::Array(a.into_iter().map(from_value).collect()),
        serde_json::Value::Object(m) => Json::Object(
            m.into_iter().map(|(k, v)| (k, from_value(v))).collect(),
        ),
    }
}

/// Rebuilds a [`Json`] as a `serde_json::Value`, node for node. A number
/// without an integer value becomes `null`, and of two members with one name
/// the later stays. Nothing is claimed here; the contract is that of
/// [`print`].
#[verifier::external_body]
fn to_value(j: &Json) -> serde_json::Value {
    match j {
        Json::Null => serde_json::Value::Null,
        Json::Bool(b) => serde_json::Value::Bool(*b),
        Json::Number(n) => serde_json::Value::from(*n),
        Json::Str(s) => serde_json::Value::String(s.clone()),
        Json::Array(a) => serde_json::Value::Array(a.iter().map(to_value).collect()),
        Json::Object(m) => serde_json::Value::Object(
            m.iter().map(|(k, v)| (k.clone(), to_value(v))).collect(),
        ),
    }
}

/// Calls `serde_json::from_slice` for a `serde_json::Value`. The result is
/// the tree that [`json_parse`] names for these bytes: the same bytes always
/// give the same tree, and an error of the parser gives `None`.
#[verifier::external_body]
pub(crate) fn parse(text: &[u8]) -> (r: Option<Json>)
    ensures
        optional_value(r) == json_parse(text@),
{
    match serde_json::from_slice::<serde_json::Value>(text) {
        Ok(v) => Some(from_value(v)),
        Err(_) => None,
    }
}

/// Calls `serde_json::to_string` on the tree rebuilt as a
/// `serde_json::Value`. The result is the text that [`json_print`] names for
/// this tree, and an error of the printer gives `None`.
#[verifier::external_body]
pub(crate) fn print(j: &Json) -> (r: Option<String>)
    ensures
        r matches Some(s) ==> json_print(j@) == Some(s@),
        r is None ==> json_print(j@) is None,
{
    match serde_json::to_string(&to_value(j)) {
        Ok(s) => Some(s),
        Err(_) => None,
    }
}

} // verus!
