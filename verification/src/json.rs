//! JSON documents, read and written with `serde_json`.
//!
//! The two type declarations, the three spec functions without a body and the
//! five functions marked `external_body` are taken on trust: each states what
//! one function of `serde_json` does. Everything else in this module is proved
//! from them.

use vstd::prelude::*;

verus! {

/// What a JSON value holds. Numbers are not told apart: nothing here reads one.
pub ghost enum Json {
    Null,
    Bool(bool),
    Number,
    Text(Seq<char>),
    List(Seq<Json>),
    Object(Map<Seq<char>, Json>),
}

/// Declares `serde_json::Value`, a parsed JSON value. Nothing is known of
/// what is inside one but what the functions below say.
#[verifier::external_type_specification]
#[verifier::external_body]
pub struct ExValue(serde_json::Value);

/// Declares `serde_json::Error`, the error of parsing and of writing. Nothing
/// is read from one.
#[verifier::external_type_specification]
#[verifier::external_body]
pub struct ExError(serde_json::Error);

/// What a `serde_json::Value` holds: null, a boolean, a number, a string, the
/// values of an array in their order, or the members of an object, one value
/// under each key.
pub uninterp spec fn json_value(value: serde_json::Value) -> Json;

/// What `serde_json::from_str` reads from a text as a `serde_json::Value`;
/// `None` where it reports an error.
pub uninterp spec fn json_parsed(text: Seq<char>) -> Option<Json>;

/// The text that `serde_json::to_string` writes for an object with the one
/// member `key`, a string holding `text`; `None` where it reports an error.
pub uninterp spec fn json_object_text(key: Seq<char>, text: Seq<char>) -> Option<Seq<char>>;

/// What each of a sequence of values holds.
pub open spec fn json_values(items: Seq<serde_json::Value>) -> Seq<Json> {
    Seq::new(items.len(), |i: int| json_value(items[i]))
}

/// `serde_json::from_str` at the type `serde_json::Value`. It reads the whole
/// text as one JSON value or reports an error, and which of the two, and the
/// value, depend on the text alone.
#[verifier::external_body]
pub(crate) fn parse(text: &str) -> (result: Result<serde_json::Value, serde_json::Error>)
    ensures
        match result {
            Ok(value) => json_parsed(text@) == Some(json_value(value)),
            Err(_) => json_parsed(text@) is None,
        },
{
    serde_json::from_str::<serde_json::Value>(text)
}

/// `serde_json::Value::get` with a string as the index. It returns the member
/// of an object under that key, and `None` where the value is no object or the
/// object has no such member.
#[verifier::external_body]
pub(crate) fn member<'a>(value: &'a serde_json::Value, key: &str) -> (result: Option<
    &'a serde_json::Value,
>)
    ensures
        match result {
            Some(found) => json_value(*value) matches Json::Object(members) && members.contains_key(
                key@,
            ) && members[key@] == json_value(*found),
            None => !(json_value(*value) matches Json::Object(members) && members.contains_key(
                key@,
            )),
        },
{
    value.get(key)
}

/// `serde_json::Value::as_str`. It returns the text of a string, and `None`
/// for every other value.
#[verifier::external_body]
pub(crate) fn as_text<'a>(value: &'a serde_json::Value) -> (result: Option<&'a str>)
    ensures
        match result {
            Some(text) => json_value(*value) == Json::Text(text@),
            None => !(json_value(*value) is Text),
        },
{
    value.as_str()
}

/// `serde_json::Value::as_array`. It returns the elements of an array, in
/// their order, and `None` for every other value.
#[verifier::external_body]
pub(crate) fn as_list<'a>(value: &'a serde_json::Value) -> (result: Option<
    &'a Vec<serde_json::Value>,
>)
    ensures
        match result {
            Some(items) => json_value(*value) == Json::List(json_values(items@)),
            None => !(json_value(*value) is List),
        },
{
    value.as_array()
}

/// `serde_json::to_string`, on the object that `serde_json::Value::from_iter`
/// makes of one pair of a key and a string. What it writes depends on the key
/// and the string alone.
#[verifier::external_body]
pub(crate) fn render_object(key: &str, text: &str) -> (result: Result<String, serde_json::Error>)
    ensures
        match result {
            Ok(written) => json_object_text(key@, text@) == Some(written@),
            Err(_) => json_object_text(key@, text@) is None,
        },
{
    serde_json::to_string(&serde_json::Value::from_iter([(key, text)]))
}

/// The string that an object holds under `key`; `None` where the document is
/// no object, has no such member, or holds something else there.
pub open spec fn text_member(document: Json, key: Seq<char>) -> Option<Seq<char>> {
    match document {
        Json::Object(members) => if members.contains_key(key) {
            match members[key] {
                Json::Text(text) => Some(text),
                _ => None,
            }
        } else {
            None
        },
        _ => None,
    }
}

/// Whether every item is a string.
pub open spec fn all_text(items: Seq<Json>) -> bool {
    forall|i: int| 0 <= i < items.len() ==> (#[trigger] items[i]) is Text
}

/// The strings that the items hold, in their order.
pub open spec fn texts_of(items: Seq<Json>) -> Seq<Seq<char>> {
    Seq::new(items.len(), |i: int| items[i]->Text_0)
}

/// The strings of the array that an object holds under `key`, in their order;
/// `None` where the document is no object, has no such member, holds no array
/// there, or the array holds anything but strings.
pub open spec fn text_list_member(document: Json, key: Seq<char>) -> Option<Seq<Seq<char>>> {
    match document {
        Json::Object(members) => if members.contains_key(key) {
            match members[key] {
                Json::List(items) => if all_text(items) {
                    Some(texts_of(items))
                } else {
                    None
                },
                _ => None,
            }
        } else {
            None
        },
        _ => None,
    }
}

/// Reads the string under `key`.
pub fn read_text_member(document: &serde_json::Value, key: &str) -> (result: Option<String>)
    ensures
        result.deep_view() == text_member(json_value(*document), key@),
{
    match member(document, key) {
        None => None,
        Some(found) => match as_text(found) {
            None => None,
            Some(text) => Some(text.to_owned()),
        },
    }
}

/// Reads the strings of a sequence of values; `None` as soon as one of them is
/// no string.
pub fn read_texts(items: &Vec<serde_json::Value>) -> (result: Option<Vec<String>>)
    ensures
        all_text(json_values(items@)) ==> result.deep_view() == Some(
            texts_of(json_values(items@)),
        ),
        !all_text(json_values(items@)) ==> result is None,
{
    let mut texts: Vec<String> = Vec::new();
    let mut at: usize = 0;
    while at < items.len()
        invariant
            at <= items@.len(),
            texts@.len() == at,
            forall|i: int| 0 <= i < at ==> (#[trigger] json_values(items@)[i]) is Text,
            forall|i: int|
                0 <= i < at ==> (#[trigger] texts@[i])@ == json_values(items@)[i]->Text_0,
        decreases items@.len() - at,
    {
        match as_text(&items[at]) {
            None => {
                assert(!(json_values(items@)[at as int] is Text));
                return None;
            },
            Some(text) => {
                assert(json_values(items@)[at as int] == Json::Text(text@));
                texts.push(text.to_owned());
            },
        }
        at = at + 1;
    }
    assert(texts.deep_view() =~= texts_of(json_values(items@)));
    Some(texts)
}

/// Reads the strings of the array under `key`.
pub fn read_text_list_member(document: &serde_json::Value, key: &str) -> (result: Option<
    Vec<String>,
>)
    ensures
        result.deep_view() == text_list_member(json_value(*document), key@),
{
    match member(document, key) {
        None => None,
        Some(found) => match as_list(found) {
            None => None,
            Some(items) => read_texts(items),
        },
    }
}

} // verus!
