//! JSON documents as the library sees them: a tree of plain values that
//! `serde_json` reads from text, and the lookups by key and by index on it.

use crate::text::same_text;
use vstd::prelude::*;

verus! {

/// A JSON value.
///
/// A number keeps its value where it is an integer that fits in `i64`;
/// any other number is `Number(None)`.
#[derive(Debug, PartialEq)]
pub enum Json {
    Null,
    Bool(bool),
    Number(Option<i64>),
    Text(String),
    Array(Vec<Json>),
    Object(Vec<Member>),
}

/// One member of a JSON object.
#[derive(Debug, PartialEq)]
pub struct Member {
    pub key: String,
    pub value: Json,
}

#[verifier::external_type_specification]
#[verifier::external_body]
pub struct ExValue(serde_json::Value);

#[verifier::external_type_specification]
#[verifier::external_body]
pub struct ExError(serde_json::Error);

/// The tree that a `serde_json::Value` holds.
pub uninterp spec fn value_content(value: serde_json::Value) -> Json;

/// The document that `serde_json::from_str` reads from a text; `None` where
/// it reports an error.
pub uninterp spec fn json_text(text: Seq<char>) -> Option<Json>;

/// The value of the first member named `key` among `members`.
pub open spec fn first_named(members: Seq<Member>, key: Seq<char>) -> Option<Json>
    decreases members.len(),
{
    if members.len() == 0 {
        None
    } else if members[0].key@ == key {
        Some(members[0].value)
    } else {
        first_named(members.subrange(1, members.len() as int), key)
    }
}

impl Json {
    /// The member `key` of an object; `None` for a missing key and for
    /// anything that is not an object.
    pub open spec fn member(self, key: Seq<char>) -> Option<Json> {
        match self {
            Json::Object(members) => first_named(members@, key),
            _ => None,
        }
    }

    /// The element at `index` of an array; `None` past its end and for
    /// anything that is not an array.
    pub open spec fn element(self, index: int) -> Option<Json> {
        match self {
            Json::Array(items) => if 0 <= index < items@.len() {
                Some(items@[index])
            } else {
                None
            },
            _ => None,
        }
    }

    /// The integer that a number holds.
    pub open spec fn integer(self) -> Option<i64> {
        match self {
            Json::Number(n) => n,
            _ => None,
        }
    }

    /// Looks a key up in an object.
    pub fn get_key(&self, key: &str) -> (found: Option<&Json>)
        ensures
            match found {
                Some(value) => self.member(key@) == Some(*value),
                None => self.member(key@) is None,
            },
    {
        match self {
            Json::Object(members) => {
                let mut i: usize = 0;
                assert(members@.subrange(0, members@.len() as int) == members@);
                while i < members.len()
                    invariant
                        i <= members@.len(),
                        self.member(key@) == first_named(members@, key@),
                        first_named(members@, key@) == first_named(
                            members@.subrange(i as int, members@.len() as int),
                            key@,
                        ),
                    decreases members@.len() - i,
                {
                    let ghost rest = members@.subrange(i as int, members@.len() as int);
                    assert(rest[0] == members@[i as int]);
                    assert(rest.subrange(1, rest.len() as int) == members@.subrange(
                        i as int + 1,
                        members@.len() as int,
                    ));
                    if same_text(members[i].key.as_str(), key) {
                        return Some(&members[i].value);
                    }
                    i = i + 1;
                }
                None
            },
            _ => None,
        }
    }

    /// Looks an index up in an array.
    pub fn get_index(&self, index: usize) -> (found: Option<&Json>)
        ensures
            match found {
                Some(value) => self.element(index as int) == Some(*value),
                None => self.element(index as int) is None,
            },
    {
        match self {
            Json::Array(items) => if index < items.len() {
                Some(&items[index])
            } else {
                None
            },
            _ => None,
        }
    }

    /// The value as a 64-bit signed integer, where it is one.
    pub fn as_i64(&self) -> (n: Option<i64>)
        ensures
            n == self.integer(),
    {
        match self {
            Json::Number(n) => *n,
            _ => None,
        }
    }

    /// Whether the value is an array.
    pub fn is_array(&self) -> (b: bool)
        ensures
            b == (self is Array),
    {
        match self {
            Json::Array(_) => true,
            _ => false,
        }
    }

    /// Whether the value is an object.
    pub fn is_object(&self) -> (b: bool)
        ensures
            b == (self is Object),
    {
        match self {
            Json::Object(_) => true,
            _ => false,
        }
    }

    /// Reads a document from text, with `serde_json` as the parser.
    pub fn parse(text: &str) -> (doc: Option<Json>)
        ensures
            doc == json_text(text@),
    {
        match read_value(text) {
            Ok(value) => Some(lift(&value)),
            Err(_) => None,
        }
    }
}

/// Trusted: `serde_json::from_str` at the type `serde_json::Value`. The
/// outcome is a function of the text alone: an error exactly where
/// `json_text` has no document, and otherwise a value that holds the
/// document.
#[verifier::external_body]
fn read_value(text: &str) -> (r: Result<serde_json::Value, serde_json::Error>)
    ensures
        match r {
            Ok(value) => json_text(text@) == Some(value_content(value)),
            Err(_) => json_text(text@) is None,
        },
{
    serde_json::from_str::<serde_json::Value>(text)
}

/// Trusted: hands out what a `serde_json::Value` holds, variant by variant.
/// A number goes through `serde_json::Number::as_i64`; the members of an
/// object come in the order in which its map walks them.
#[verifier::external_body]
fn lift(value: &serde_json::Value) -> (json: Json)
    ensures
        json == value_content(*value),
{
    match value {
        serde_json::Value::Null => Json::Null,
        serde_json::Value::Bool(b) => Json::Bool(*b),
        serde_json::Value::Number(n) => Json::Number(n.as_i64()),
        serde_json::Value::String(s) => Json::Text(s.clone()),
        serde_json::Value::Array(items) => Json::Array(items.iter().map(lift).collect()),
        serde_json::Value::Object(map) => Json::Object(
            map.iter().map(|(k, v)| Member { key: k.clone(), value: lift(v) }).collect(),
        ),
    }
}

} // verus!
