//! JSON documents, as the `serde_json` crate holds them.
//!
//! The configuration, the resolved key and the metadata that an envelope
//! embeds are JSON.  Reading and building such documents is left to
//! `serde_json`; the rest of the crate works on its values through the
//! functions of this file.  None of them is proved: each states, over
//! [`JsonView`], what the method it calls is documented to do.

use vstd::prelude::*;

verus! {

/// What a JSON number holds: an integer that is not negative, a negative
/// integer, or a number that is neither (a fraction, or an integer beyond
/// 64 bits).
pub enum JsonNumber {
    Unsigned(u64),
    Signed(i64),
    Other,
}

/// What a JSON value holds.  An object is held as the mapping from its
/// member names to its members.
pub enum JsonView {
    Null,
    Bool(bool),
    Number(JsonNumber),
    Text(Seq<char>),
    List(Seq<JsonView>),
    Object(Map<Seq<char>, JsonView>),
}

/// A JSON value of `serde_json`.  What it holds is `json_of`.
#[verifier::external_type_specification]
#[verifier::external_body]
pub struct ExJsonValue(serde_json::Value);

/// The members of a JSON object in `serde_json`.  What it holds is
/// `members_of`.
#[verifier::external_type_specification]
#[verifier::external_body]
#[verifier::reject_recursive_types(K)]
#[verifier::reject_recursive_types(V)]
pub struct ExJsonMap<K, V>(serde_json::Map<K, V>);

/// The error of `serde_json`.  It is carried, never looked into.
#[verifier::external_type_specification]
#[verifier::external_body]
pub struct ExJsonError(serde_json::Error);

/// The members of a JSON object, as `serde_json` holds them.
pub type JsonMembers = serde_json::Map<String, serde_json::Value>;

/// What `value` holds.
pub uninterp spec fn json_of(value: serde_json::Value) -> JsonView;

/// The members that `members` holds, by name.
pub uninterp spec fn members_of(members: JsonMembers) -> Map<Seq<char>, JsonView>;

/// What the JSON document `text` holds, or `None` where `text` is no JSON
/// document.
pub uninterp spec fn json_document(text: Seq<char>) -> Option<JsonView>;

/// An object without members.
pub open spec fn no_members() -> Map<Seq<char>, JsonView> {
    Map::empty()
}

/// What the values of a list hold, in order.
pub open spec fn values_view(values: Seq<serde_json::Value>) -> Seq<JsonView> {
    Seq::new(values.len(), |i: int| json_of(values[i]))
}

/// `serde_json::from_str` at the type `Value`.  What it reads, or that it
/// fails, depends on the text alone and is named, not defined:
/// `json_document`.
#[verifier::external_body]
pub(crate) fn parse_json(text: &str) -> (res: Result<serde_json::Value, serde_json::Error>)
    ensures
        res matches Ok(value) ==> json_document(text@) == Some(json_of(value)),
        res is Err ==> json_document(text@) is None,
{
    serde_json::from_str::<serde_json::Value>(text)
}

/// `Value::get` with a name: the member of that name if the value is an
/// object that has one, else nothing.
#[verifier::external_body]
pub(crate) fn member<'a>(value: &'a serde_json::Value, name: &str) -> (res: Option<
    &'a serde_json::Value,
>)
    ensures
        match json_of(*value) {
            JsonView::Object(members) => if members.dom().contains(name@) {
                res matches Some(found) && json_of(*found) == members[name@]
            } else {
                res is None
            },
            _ => res is None,
        },
{
    value.get(name)
}

/// `Value::as_array`: the items if the value is a list, else nothing.
#[verifier::external_body]
pub(crate) fn items<'a>(value: &'a serde_json::Value) -> (res: Option<&'a Vec<serde_json::Value>>)
    ensures
        match json_of(*value) {
            JsonView::List(list) => res matches Some(found) && values_view(found@) == list,
            _ => res is None,
        },
{
    value.as_array()
}

/// `Value::as_str`: the text if the value is a string, else nothing.
#[verifier::external_body]
pub(crate) fn as_text<'a>(value: &'a serde_json::Value) -> (res: Option<&'a str>)
    ensures
        match json_of(*value) {
            JsonView::Text(text) => res matches Some(found) && found@ == text,
            _ => res is None,
        },
{
    value.as_str()
}

/// `Value::as_u64`: the number if the value is an integer that is not
/// negative, else nothing.
#[verifier::external_body]
pub(crate) fn as_u64(value: &serde_json::Value) -> (res: Option<u64>)
    ensures
        match json_of(*value) {
            JsonView::Number(JsonNumber::Unsigned(n)) => res == Some(n),
            _ => res is None,
        },
{
    value.as_u64()
}

/// `Value::as_i64`: the number if the value is a negative integer, or one
/// that is not negative and fits 64 bits with a sign; else nothing.
#[verifier::external_body]
pub(crate) fn as_i64(value: &serde_json::Value) -> (res: Option<i64>)
    ensures
        match json_of(*value) {
            JsonView::Number(JsonNumber::Signed(n)) => res == Some(n),
            JsonView::Number(JsonNumber::Unsigned(n)) => if n <= i64::MAX {
                res == Some(n as i64)
            } else {
                res is None
            },
            _ => res is None,
        },
{
    value.as_i64()
}

/// `Value::is_null`.
#[verifier::external_body]
pub(crate) fn is_null(value: &serde_json::Value) -> (res: bool)
    ensures
        res == (json_of(*value) is Null),
{
    value.is_null()
}

/// `Value::Null`.
#[verifier::external_body]
pub(crate) fn null_value() -> (res: serde_json::Value)
    ensures
        json_of(res) == JsonView::Null,
{
    serde_json::Value::Null
}

/// `Value::from` a string slice: the string that holds it.
#[verifier::external_body]
pub(crate) fn text_value(text: &str) -> (res: serde_json::Value)
    ensures
        json_of(res) == JsonView::Text(text@),
{
    serde_json::Value::from(text)
}

/// `Value::from` a `u32`: the number that holds it.
#[verifier::external_body]
pub(crate) fn number_value(number: u32) -> (res: serde_json::Value)
    ensures
        json_of(res) == JsonView::Number(JsonNumber::Unsigned(number as u64)),
{
    serde_json::Value::from(number)
}

/// `Value::Array`: the list of these items.
#[verifier::external_body]
pub(crate) fn list_value(items: Vec<serde_json::Value>) -> (res: serde_json::Value)
    ensures
        json_of(res) == JsonView::List(values_view(items@)),
{
    serde_json::Value::Array(items)
}

/// `Map::new`: no members.
#[verifier::external_body]
pub(crate) fn new_members() -> (res: JsonMembers)
    ensures
        members_of(res) == no_members(),
{
    serde_json::Map::new()
}

/// `Map::insert`: the member of that name is this value from now on; the
/// others stay.
#[verifier::external_body]
pub(crate) fn insert_member(members: &mut JsonMembers, name: &str, value: serde_json::Value)
    ensures
        members_of(*final(members)) == members_of(*old(members)).insert(name@, json_of(value)),
{
    members.insert(name.to_owned(), value);
}

/// `Value::Object`: the object of these members.
#[verifier::external_body]
pub(crate) fn object_value(members: JsonMembers) -> (res: serde_json::Value)
    ensures
        json_of(res) == JsonView::Object(members_of(members)),
{
    serde_json::Value::Object(members)
}

/// The text that the member `name` of a document holds, if the document is
/// an object with such a member and the member is a string.
pub open spec fn spec_text_at(document: JsonView, name: Seq<char>) -> Option<Seq<char>> {
    match document {
        JsonView::Object(members) => if members.dom().contains(name) {
            match members[name] {
                JsonView::Text(text) => Some(text),
                _ => None,
            }
        } else {
            None
        },
        _ => None,
    }
}

/// Reads the text that the member `name` of `document` holds.
pub(crate) fn text_at(document: &serde_json::Value, name: &str) -> (res: Option<String>)
    ensures
        match res {
            Some(text) => spec_text_at(json_of(*document), name@) == Some(text@),
            None => spec_text_at(json_of(*document), name@) is None,
        },
{
    match member(document, name) {
        None => None,
        Some(value) => match as_text(value) {
            Some(text) => Some(text.to_owned()),
            None => None,
        },
    }
}

} // verus!
