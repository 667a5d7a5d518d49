//! JSON documents that the agent reads, as values of its own.

use crate::text::str_eq;
use vstd::prelude::*;
use vstd::string::*;

verus! {

/// `serde_json::Value`, which the parser hands out.
#[verifier::external_type_specification]
#[verifier::external_body]
pub struct ExValue(serde_json::Value);

/// A JSON value. A number is kept as the text that stands for it; the
/// members of an object are in the order of their keys, and no two of them
/// share a key.
#[derive(Debug)]
pub enum Json {
    Null,
    Bool(bool),
    Number(String),
    Text(String),
    Array(Vec<Json>),
    Object(Vec<(String, Json)>),
}

/// What `serde_json::from_str` reads from `text`, where `text` is one JSON
/// value.
pub uninterp spec fn json_parsed(text: Seq<char>) -> Option<Json>;

/// Turns a `serde_json::Value` into a `Json`, variant by variant: a number
/// becomes its text by `Number::to_string`, and the members of an object come
/// in the order in which its map holds them.
#[verifier::external_body]
fn json_from(v: &serde_json::Value) -> Json {
    match v {
        serde_json::Value::Null => Json::Null,
        serde_json::Value::Bool(b) => Json::Bool(*b),
        serde_json::Value::Number(n) => Json::Number(n.to_string()),
        serde_json::Value::String(s) => Json::Text(s.clone()),
        serde_json::Value::Array(a) => Json::Array(a.iter().map(json_from).collect()),
        serde_json::Value::Object(o) => Json::Object(
            o.iter().map(|(k, x)| (k.clone(), json_from(x))).collect(),
        ),
    }
}

/// `serde_json::from_str`, read into a `serde_json::Value`: the value where
/// `text` is one JSON value, nothing where it is not.
#[verifier::external_body]
pub(crate) fn parse_json(text: &str) -> (r: Option<Json>)
    ensures
        r == json_parsed(text@),
{
    match serde_json::from_str::<serde_json::Value>(text) {
        Ok(v) => Some(json_from(&v)),
        Err(_) => None,
    }
}

/// The value of the first member with the key `key`.
pub open spec fn lookup(members: Seq<(String, Json)>, key: Seq<char>) -> Option<Json>
    decreases members.len(),
{
    if members.len() == 0 {
        None
    } else if members[0].0@ == key {
        Some(members[0].1)
    } else {
        lookup(members.drop_first(), key)
    }
}

/// The member `key` of an object; nothing for any other value.
pub open spec fn member_of(j: Json, key: Seq<char>) -> Option<Json> {
    match j {
        Json::Object(members) => lookup(members@, key),
        _ => None,
    }
}

/// The member `key` of the object `j`, where there is such an object.
pub open spec fn field(j: Option<Json>, key: Seq<char>) -> Option<Json> {
    match j {
        Some(v) => member_of(v, key),
        None => None,
    }
}

/// The text of a JSON string.
pub open spec fn text_of(j: Option<Json>) -> Option<Seq<char>> {
    match j {
        Some(Json::Text(s)) => Some(s@),
        _ => None,
    }
}

/// The text of a JSON number.
pub open spec fn number_of(j: Option<Json>) -> Option<Seq<char>> {
    match j {
        Some(Json::Number(n)) => Some(n@),
        _ => None,
    }
}

/// The value is there and is not `null`.
pub open spec fn is_set(j: Option<Json>) -> bool {
    match j {
        Some(Json::Null) => false,
        Some(_) => true,
        None => false,
    }
}

/// The value is `true`.
pub open spec fn is_true(j: Option<Json>) -> bool {
    j matches Some(Json::Bool(b)) && b
}

impl Json {
    /// The member `key` of an object.
    pub fn member(&self, key: &str) -> (r: Option<&Json>)
        ensures
            match r {
                Some(v) => member_of(*self, key@) == Some(*v),
                None => member_of(*self, key@) is None,
            },
    {
        match self {
            Json::Object(members) => {
                let mut i: usize = 0;
                assert(members@.skip(0) == members@);
                while i < members.len()
                    invariant
                        i <= members.len(),
                        member_of(*self, key@) == lookup(members@, key@),
                        lookup(members@, key@) == lookup(members@.skip(i as int), key@),
                    decreases members.len() - i,
                {
                    assert(members@.skip(i as int).drop_first() == members@.skip(i + 1));
                    assert(members@.skip(i as int)[0] == members@[i as int]);
                    if str_eq(members[i].0.as_str(), key) {
                        return Some(&members[i].1);
                    }
                    i += 1;
                }
                None
            },
            _ => None,
        }
    }

    /// Whether the value is an object.
    pub fn is_object(&self) -> (b: bool)
        ensures
            b == (self is Object),
    {
        match self {
            Json::Object(_) => true,
            _ => false,
        }
    }
}

/// The member `key` of the object `j`, where there is such an object.
pub fn get<'a>(j: Option<&'a Json>, key: &str) -> (r: Option<&'a Json>)
    ensures
        match r {
            Some(v) => field(as_value(j), key@) == Some(*v),
            None => field(as_value(j), key@) is None,
        },
{
    match j {
        Some(v) => v.member(key),
        None => None,
    }
}

/// The value behind an optional reference.
pub open spec fn as_value(j: Option<&Json>) -> Option<Json> {
    match j {
        Some(v) => Some(*v),
        None => None,
    }
}

/// The text of a JSON string, copied.
pub fn as_text(j: Option<&Json>) -> (r: Option<String>)
    ensures
        crate::http::opt_view(r) == text_of(as_value(j)),
{
    match j {
        Some(Json::Text(s)) => Some(s.clone()),
        _ => None,
    }
}

/// The text of a JSON number, copied.
pub fn as_number(j: Option<&Json>) -> (r: Option<String>)
    ensures
        crate::http::opt_view(r) == number_of(as_value(j)),
{
    match j {
        Some(Json::Number(n)) => Some(n.clone()),
        _ => None,
    }
}

/// Whether the value is there and is not `null`.
pub fn value_is_set(j: Option<&Json>) -> (b: bool)
    ensures
        b == is_set(as_value(j)),
{
    match j {
        Some(Json::Null) => false,
        Some(_) => true,
        None => false,
    }
}

/// Whether the value is `true`.
pub fn value_is_true(j: Option<&Json>) -> (b: bool)
    ensures
        b == is_true(as_value(j)),
{
    match j {
        Some(Json::Bool(b)) => *b,
        _ => false,
    }
}

} // verus!
