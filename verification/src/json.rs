//! JSON documents as plain values, read from text by `serde_json`.

use vstd::prelude::*;
use serde_json::Value;

verus! {

/// A JSON document.
///
/// Whole numbers keep their value; any other number keeps its decimal text.
/// An object is the list of its members in the order the parser hands them out.
#[derive(Debug, PartialEq, Eq)]
pub enum Json {
    Null,
    Bool(bool),
    /// A whole number that is not negative.
    Unsigned(u64),
    /// A whole number below zero.
    Negative(i64),
    /// A number that is not whole, by its text.
    Real(String),
    Text(String),
    Array(Vec<Json>),
    Object(Vec<(String, Json)>),
}

/// `serde_json::Value`, carried from the parser to the conversion and never
/// looked into by verified code.
#[verifier::external_type_specification]
#[verifier::external_body]
pub struct ExValue(serde_json::Value);

/// `serde_json::Error`, of which only the message is used.
#[verifier::external_type_specification]
#[verifier::external_body]
pub struct ExError(serde_json::Error);

/// What `serde_json::from_str` makes of a text: the document it reads, or the
/// message of the error it reports.
pub uninterp spec fn json_parse(text: Seq<char>) -> Result<Json, Seq<char>>;

/// The document that a `serde_json::Value` holds.
pub uninterp spec fn value_json(value: serde_json::Value) -> Json;

/// The message that a `serde_json::Error` displays.
pub uninterp spec fn error_message(error: serde_json::Error) -> Seq<char>;

/// Calls `serde_json::from_str` for a `serde_json::Value`. Trusted: the outcome
/// depends on the text alone, and is the one that `json_parse` names.
#[verifier::external_body]
fn value_from_text(text: &str) -> (r: Result<serde_json::Value, serde_json::Error>)
    ensures
        match r {
            Ok(value) => json_parse(text@) == Ok::<Json, Seq<char>>(value_json(value)),
            Err(error) => json_parse(text@) == Err::<Json, Seq<char>>(error_message(error)),
        },
{
    serde_json::from_str::<serde_json::Value>(text)
}

/// Copies a `serde_json::Value` into a `Json`, variant by variant and item by
/// item, calling itself for the items of arrays and the members of objects. A
/// number goes by `Number::as_u64`, then `Number::as_i64`, then its display
/// text. Trusted: the result is the document that `value_json` names.
#[verifier::external_body]
fn json_from_value(value: &serde_json::Value) -> (r: Json)
    ensures
        r == value_json(*value),
{
    match value {
        Value::Null => Json::Null,
        Value::Bool(b) => Json::Bool(*b),
        Value::Number(n) => match (n.as_u64(), n.as_i64()) {
            (Some(u), _) => Json::Unsigned(u),
            (_, Some(i)) => Json::Negative(i),
            _ => Json::Real(n.to_string()),
        },
        Value::String(s) => Json::Text(s.clone()),
        Value::Array(a) => Json::Array(a.iter().map(json_from_value).collect()),
        Value::Object(m) => Json::Object(m.iter().map(|(k, x)| (k.clone(), json_from_value(x))).collect()),
    }
}

/// Calls `to_string` on a `serde_json::Error`. Trusted: the result is the
/// message that `error_message` names.
#[verifier::external_body]
fn text_of_error(error: &serde_json::Error) -> (r: String)
    ensures
        r@ == error_message(*error),
{
    error.to_string()
}

/// Reads one JSON document from `text`.
///
/// Returns the document where the parser accepts the text, and the parser's
/// message where it does not.
pub fn parse_json(text: &str) -> (r: Result<Json, String>)
    ensures
        match r {
            Ok(json) => json_parse(text@) == Ok::<Json, Seq<char>>(json),
            Err(message) => json_parse(text@) == Err::<Json, Seq<char>>(message@),
        },
{
    match value_from_text(text) {
        Ok(value) => Ok(json_from_value(&value)),
        Err(error) => Err(text_of_error(&error)),
    }
}

/// The index of the first member called `name` at or after `from`.
pub open spec fn member_index(members: Seq<(String, Json)>, name: Seq<char>, from: int) -> Option<int>
    decreases members.len() - from,
{
    if from < 0 || from >= members.len() {
        None
    } else if members[from].0@ == name {
        Some(from)
    } else {
        member_index(members, name, from + 1)
    }
}

/// The member of an object called `name`; nothing for any other document.
pub open spec fn member(json: Json, name: Seq<char>) -> Option<Json> {
    match json {
        Json::Object(members) => match member_index(members@, name, 0) {
            Some(i) => Some(members@[i].1),
            None => None,
        },
        _ => None,
    }
}

/// The field of a record of `width` fields: in an object the first member
/// called `name`, in an array of exactly `width` items the item at `position`.
/// Any other document has no fields.
pub open spec fn field(json: Json, name: Seq<char>, position: int, width: int) -> Option<Json> {
    match json {
        Json::Array(items) => if items@.len() == width && 0 <= position < width {
            Some(items@[position])
        } else {
            None
        },
        _ => member(json, name),
    }
}

/// Finds the first member called `name` in an object's member list.
pub fn find_member(members: &Vec<(String, Json)>, name: &str) -> (r: Option<usize>)
    ensures
        match r {
            Some(i) => member_index(members@, name@, 0) == Some(i as int) && i < members.len(),
            None => member_index(members@, name@, 0).is_none(),
        },
{
    let wanted = name.to_owned();
    let mut i: usize = 0;
    while i < members.len()
        invariant
            i <= members.len(),
            wanted@ == name@,
            member_index(members@, name@, 0) == member_index(members@, name@, i as int),
        decreases members.len() - i,
    {
        if members[i].0 == wanted {
            return Some(i);
        }
        i += 1;
    }
    None
}

/// Borrows the field of a record, as `field` defines it.
pub fn get_field<'a>(json: &'a Json, name: &str, position: usize, width: usize) -> (r: Option<&'a Json>)
    ensures
        match r {
            Some(found) => field(*json, name@, position as int, width as int) == Some(*found),
            None => field(*json, name@, position as int, width as int).is_none(),
        },
{
    match json {
        Json::Object(members) => match find_member(members, name) {
            Some(i) => Some(&members[i].1),
            None => None,
        },
        Json::Array(items) => if items.len() == width && position < width {
            Some(&items[position])
        } else {
            None
        },
        _ => None,
    }
}

/// Borrows the member called `name` of an object, as `member` defines it.
pub fn get_member<'a>(json: &'a Json, name: &str) -> (r: Option<&'a Json>)
    ensures
        match r {
            Some(found) => member(*json, name@) == Some(*found),
            None => member(*json, name@).is_none(),
        },
{
    match json {
        Json::Object(members) => match find_member(members, name) {
            Some(i) => Some(&members[i].1),
            None => None,
        },
        _ => None,
    }
}

/// Takes the field of a record out of it, as `field` defines it.
pub fn take_field(json: Json, name: &str, position: usize, width: usize) -> (r: Option<Json>)
    ensures
        r == field(json, name@, position as int, width as int),
{
    match json {
        Json::Object(members) => {
            let mut members = members;
            match find_member(&members, name) {
                Some(i) => {
                    let pair = members.remove(i);
                    Some(pair.1)
                },
                None => None,
            }
        },
        Json::Array(items) => {
            let mut items = items;
            if items.len() == width && position < width {
                Some(items.remove(position))
            } else {
                None
            }
        },
        _ => None,
    }
}

/// Takes the member called `name` out of an object, as `member` defines it.
/// A document without such a member is handed back untouched.
pub fn take_member(json: Json, name: &str) -> (r: Result<Json, Json>)
    ensures
        match member(json, name@) {
            Some(found) => r == Ok::<Json, Json>(found),
            None => r == Err::<Json, Json>(json),
        },
{
    match json {
        Json::Object(members) => match find_member(&members, name) {
            Some(i) => {
                let mut members = members;
                let pair = members.remove(i);
                Ok(pair.1)
            },
            None => Err(Json::Object(members)),
        },
        other => Err(other),
    }
}

} // verus!
