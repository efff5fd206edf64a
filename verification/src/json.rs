//! JSON documents as the feed delivers them.
//!
//! Parsing is left to `serde_json`; what it returns is turned into [`Json`],
//! a tree of plain values that the decoders of this crate read.

use serde_json::Value;
use vstd::prelude::*;

use crate::decimal::decimal_i32;
use crate::decimal::decimal_i64;
use crate::decimal::parse_i32;
use crate::decimal::parse_i64;
use crate::text::same_text;

verus! {

/// One key of a JSON object with the value under it.
#[derive(Debug)]
pub struct Member {
    pub key: String,
    pub value: Json,
}

/// A JSON document.
///
/// A number keeps the text it is written with, so that no precision is lost
/// and no floating point is involved: an integer reads as its decimal
/// notation. The members of an object keep the order in which the parser
/// hands them out.
#[derive(Debug)]
pub enum Json {
    Null,
    Bool(bool),
    Number(String),
    Text(String),
    Array(Vec<Json>),
    Object(Vec<Member>),
}

/// The value under the first member of `members` whose key is `key`.
pub open spec fn find_member(members: Seq<Member>, key: Seq<char>) -> Option<Json>
    decreases members.len(),
{
    if members.len() == 0 {
        None
    } else if members[0].key@ == key {
        Some(members[0].value)
    } else {
        find_member(members.drop_first(), key)
    }
}

impl Json {
    /// The characters of a JSON string.
    pub open spec fn text(self) -> Option<Seq<char>> {
        match self {
            Json::Text(s) => Some(s@),
            _ => None,
        }
    }

    /// The elements of a JSON array.
    pub open spec fn elements(self) -> Option<Seq<Json>> {
        match self {
            Json::Array(items) => Some(items@),
            _ => None,
        }
    }

    /// The value under `key` in a JSON object.
    pub open spec fn member(self, key: Seq<char>) -> Option<Json> {
        match self {
            Json::Object(members) => find_member(members@, key),
            _ => None,
        }
    }

    /// A JSON number read as a 64-bit signed integer.
    pub open spec fn integer(self) -> Option<i64> {
        match self {
            Json::Number(digits) => decimal_i64(digits@),
            _ => None,
        }
    }

    /// A JSON number read as a 32-bit signed integer.
    pub open spec fn small_integer(self) -> Option<i32> {
        match self {
            Json::Number(digits) => decimal_i32(digits@),
            _ => None,
        }
    }

    /// The string under `key` in a JSON object.
    pub open spec fn text_member(self, key: Seq<char>) -> Option<Seq<char>> {
        match self.member(key) {
            Some(value) => value.text(),
            None => None,
        }
    }

    /// The 32-bit integer under `key` in a JSON object.
    pub open spec fn small_integer_member(self, key: Seq<char>) -> Option<i32> {
        match self.member(key) {
            Some(value) => value.small_integer(),
            None => None,
        }
    }

    /// The 64-bit integer under `key` in a JSON object.
    pub open spec fn integer_member(self, key: Seq<char>) -> Option<i64> {
        match self.member(key) {
            Some(value) => value.integer(),
            None => None,
        }
    }

    /// The boolean under `key` in a JSON object.
    pub open spec fn bool_member(self, key: Seq<char>) -> Option<bool> {
        match self.member(key) {
            Some(Json::Bool(flag)) => Some(flag),
            _ => None,
        }
    }

    /// The array under `key` in a JSON object.
    pub open spec fn elements_member(self, key: Seq<char>) -> Option<Seq<Json>> {
        match self.member(key) {
            Some(value) => value.elements(),
            None => None,
        }
    }

    /// Looks up the value under `key`; `None` for a missing key and for a
    /// document that is no object.
    pub fn get(&self, key: &str) -> (found: Option<&Json>)
        ensures
            match found {
                Some(value) => self.member(key@) == Some(*value),
                None => self.member(key@) is None,
            },
    {
        match self {
            Json::Object(members) => {
                let mut i: usize = 0;
                assert(members@.skip(0) =~= members@);
                while i < members.len()
                    invariant
                        i <= members.len(),
                        self.member(key@) == find_member(members@.skip(i as int), key@),
                    decreases members.len() - i,
                {
                    let ghost rest = members@.skip(i as int);
                    assert(rest.len() > 0);
                    assert(rest[0] == members@[i as int]);
                    assert(rest.drop_first() =~= members@.skip(i + 1));
                    if same_text(members[i].key.as_str(), key) {
                        assert(find_member(rest, key@) == Some(rest[0].value));
                        return Some(&members[i].value);
                    }
                    assert(find_member(rest, key@) == find_member(rest.drop_first(), key@));
                    i += 1;
                }
                None
            },
            _ => None,
        }
    }

    /// The text of a JSON string; `None` for any other document.
    pub fn as_str(&self) -> (found: Option<&str>)
        ensures
            match found {
                Some(s) => self.text() == Some(s@),
                None => self.text() is None,
            },
    {
        match self {
            Json::Text(s) => Some(s.as_str()),
            _ => None,
        }
    }

    /// The elements of a JSON array; `None` for any other document.
    pub fn as_array(&self) -> (found: Option<&Vec<Json>>)
        ensures
            match found {
                Some(items) => self.elements() == Some(items@),
                None => self.elements() is None,
            },
    {
        match self {
            Json::Array(items) => Some(items),
            _ => None,
        }
    }

    /// A JSON number as a 64-bit signed integer; `None` for a fraction, an
    /// integer out of range and any other document.
    pub fn as_i64(&self) -> (found: Option<i64>)
        ensures
            found == self.integer(),
    {
        match self {
            Json::Number(digits) => parse_i64(digits.as_str()),
            _ => None,
        }
    }

    /// A JSON number as a 32-bit signed integer; `None` for a fraction, an
    /// integer out of range and any other document.
    pub fn as_i32(&self) -> (found: Option<i32>)
        ensures
            found == self.small_integer(),
    {
        match self {
            Json::Number(digits) => parse_i32(digits.as_str()),
            _ => None,
        }
    }

    /// A copy of the string under `key`.
    pub fn text_field(&self, key: &str) -> (found: Option<String>)
        ensures
            match found {
                Some(s) => self.text_member(key@) == Some(s@),
                None => self.text_member(key@) is None,
            },
    {
        match self.get(key) {
            Some(value) => match value {
                Json::Text(s) => Some(s.clone()),
                _ => None,
            },
            None => None,
        }
    }

    /// The 32-bit integer under `key`.
    pub fn i32_field(&self, key: &str) -> (found: Option<i32>)
        ensures
            found == self.small_integer_member(key@),
    {
        match self.get(key) {
            Some(value) => value.as_i32(),
            None => None,
        }
    }

    /// The 64-bit integer under `key`.
    pub fn i64_field(&self, key: &str) -> (found: Option<i64>)
        ensures
            found == self.integer_member(key@),
    {
        match self.get(key) {
            Some(value) => value.as_i64(),
            None => None,
        }
    }

    /// The boolean under `key`.
    pub fn bool_field(&self, key: &str) -> (found: Option<bool>)
        ensures
            found == self.bool_member(key@),
    {
        match self.get(key) {
            Some(value) => match value {
                Json::Bool(flag) => Some(*flag),
                _ => None,
            },
            None => None,
        }
    }

    /// The array under `key`.
    pub fn array_field(&self, key: &str) -> (found: Option<&Vec<Json>>)
        ensures
            match found {
                Some(items) => self.elements_member(key@) == Some(items@),
                None => self.elements_member(key@) is None,
            },
    {
        match self.get(key) {
            Some(value) => value.as_array(),
            None => None,
        }
    }
}

/// `serde_json::Value`, declared so that it can be carried from the parser
/// to the conversion. Verified code reads nothing inside it.
#[verifier::external_type_specification]
#[verifier::external_body]
pub struct ExValue(serde_json::Value);

/// The document that `serde_json` reads from `text`, or `None` where it
/// reports an error.
pub uninterp spec fn parsed_json(text: Seq<char>) -> Option<Json>;

/// The document that a `serde_json::Value` holds.
pub uninterp spec fn value_json(value: serde_json::Value) -> Json;

/// Calls `serde_json::from_str` for a `serde_json::Value`.
///
/// Trusted: the value holds the document that [`parsed_json`] names for the
/// text, and the result is `None` exactly when the crate reports an error.
#[verifier::external_body]
fn parse_value(text: &str) -> (value: Option<serde_json::Value>)
    ensures
        match value {
            Some(v) => parsed_json(text@) == Some(value_json(v)),
            None => parsed_json(text@) is None,
        },
{
    serde_json::from_str::<Value>(text).ok()
}

/// Moves the content of a `serde_json::Value` into a [`Json`], variant by
/// variant; a number is written out with its `Display` impl, and the members
/// of an object come in the order of the crate's map iterator.
///
/// Trusted: the result is the document that [`value_json`] names.
#[verifier::external_body]
fn json_of_value(value: serde_json::Value) -> (json: Json)
    ensures
        json == value_json(value),
{
    match value {
        Value::Null => Json::Null,
        Value::Bool(flag) => Json::Bool(flag),
        Value::Number(number) => Json::Number(number.to_string()),
        Value::String(text) => Json::Text(text),
        Value::Array(items) => Json::Array(items.into_iter().map(json_of_value).collect()),
        Value::Object(map) => Json::Object(
            map.into_iter().map(|(key, value)| Member { key, value: json_of_value(value) }).collect(),
        ),
    }
}

/// Parses a JSON document.
///
/// The result is `None` when the text is not valid JSON.
pub fn parse_json(text: &str) -> (document: Option<Json>)
    ensures
        document == parsed_json(text@),
{
    match parse_value(text) {
        Some(value) => Some(json_of_value(value)),
        None => None,
    }
}

} // verus!
