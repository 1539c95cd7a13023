//! A plain model of JSON documents, read from text by serde_json, and the
//! typed field accessors that the packet decoders are built from.

use vstd::prelude::*;
use crate::text::{parse_u64, parse_u64_spec};

verus! {

/// A JSON value. Numbers keep the text that serde_json prints for them, so an
/// integer is its decimal digits (with a leading `-` when negative) and any other
/// number holds a `.` or an exponent.
pub enum Json {
    Null,
    Bool(bool),
    Number(String),
    Str(String),
    Array(Vec<Json>),
    Object(Vec<(String, Json)>),
}

#[verifier::external_type_specification]
#[verifier::external_body]
pub struct ExJsonValue(serde_json::Value);

/// The document that a JSON text denotes, or `None` when the text is not JSON.
pub uninterp spec fn json_of_text(s: Seq<char>) -> Option<Json>;

/// Relies on `serde_json::from_str::<serde_json::Value>`: parses a JSON text; the
/// result depends on the text alone.
#[verifier::external_body]
pub(crate) fn parse_json(text: &str) -> (r: Option<Json>)
    ensures
        r == json_of_text(text@),
{
    serde_json::from_str::<serde_json::Value>(text).ok().map(json_from_value)
}

/// Relies on the variants of `serde_json::Value` and on `Display for
/// serde_json::Number`: moves a parsed value into the plain model, variant for
/// variant, keeping each number as serde_json prints it.
#[verifier::external_body]
fn json_from_value(v: serde_json::Value) -> Json {
    match v {
        serde_json::Value::Null => Json::Null,
        serde_json::Value::Bool(b) => Json::Bool(b),
        serde_json::Value::Number(n) => Json::Number(n.to_string()),
        serde_json::Value::String(s) => Json::Str(s),
        serde_json::Value::Array(a) => Json::Array(a.into_iter().map(json_from_value).collect()),
        serde_json::Value::Object(m) => Json::Object(
            m.into_iter().map(|(k, v)| (k, json_from_value(v))).collect(),
        ),
    }
}

/// The value of the first member named `key`.
pub open spec fn member_of(fields: Seq<(String, Json)>, key: Seq<char>) -> Option<Json>
    decreases fields.len(),
{
    if fields.len() == 0 {
        None
    } else if fields[0].0@ == key {
        Some(fields[0].1)
    } else {
        member_of(fields.drop_first(), key)
    }
}

impl Json {
    /// The member `key` of an object; `None` for a missing member or a non-object.
    pub open spec fn member(self, key: Seq<char>) -> Option<Json> {
        match self {
            Json::Object(fields) => member_of(fields@, key),
            _ => None,
        }
    }

    pub open spec fn element(self, i: int) -> Option<Json> {
        match self {
            Json::Array(items) => if 0 <= i < items@.len() {
                Some(items@[i])
            } else {
                None
            },
            _ => None,
        }
    }

    pub open spec fn array_len(self) -> Option<nat> {
        match self {
            Json::Array(items) => Some(items@.len()),
            _ => None,
        }
    }

    /// The member `key` of an object.
    pub fn get(&self, key: &str) -> (r: Option<&Json>)
        ensures
            match r {
                Some(v) => self.member(key@) == Some(*v),
                None => self.member(key@) is None,
            },
    {
        match self {
            Json::Object(fields) => {
                let mut i: usize = 0;
                assert(fields@.subrange(0, fields@.len() as int) =~= fields@);
                while i < fields.len()
                    invariant
                        i <= fields@.len(),
                        self.member(key@) == member_of(fields@, key@),
                        member_of(fields@, key@) == member_of(
                            fields@.subrange(i as int, fields@.len() as int),
                            key@,
                        ),
                    decreases fields@.len() - i,
                {
                    let ghost rest = fields@.subrange(i as int, fields@.len() as int);
                    assert(rest.drop_first() =~= fields@.subrange(i + 1, fields@.len() as int));
                    assert(rest[0] == fields@[i as int]);
                    let entry = &fields[i];
                    if crate::text::text_eq(entry.0.as_str(), key) {
                        return Some(&entry.1);
                    }
                    i = i + 1;
                }
                None
            },
            _ => None,
        }
    }

    /// Element `i` of an array.
    pub fn at(&self, i: usize) -> (r: Option<&Json>)
        ensures
            match r {
                Some(v) => self.element(i as int) == Some(*v),
                None => self.element(i as int) is None,
            },
    {
        match self {
            Json::Array(items) => if i < items.len() {
                Some(&items[i])
            } else {
                None
            },
            _ => None,
        }
    }

    /// Length of an array.
    pub fn len_of_array(&self) -> (r: Option<usize>)
        ensures
            match r {
                Some(n) => self.array_len() == Some(n as nat),
                None => self.array_len() is None,
            },
    {
        match self {
            Json::Array(items) => Some(items.len()),
            _ => None,
        }
    }
}

pub open spec fn deref(v: Option<&Json>) -> Option<Json> {
    match v {
        Some(j) => Some(*j),
        None => None,
    }
}

/// A string value.
pub open spec fn string_of(v: Option<Json>) -> Option<String> {
    match v {
        Some(Json::Str(s)) => Some(s),
        _ => None,
    }
}

/// An unsigned 64-bit integer written as a JSON number.
pub open spec fn u64_of(v: Option<Json>) -> Option<u64> {
    match v {
        Some(Json::Number(t)) => parse_u64_spec(t@),
        _ => None,
    }
}

/// An unsigned 32-bit integer written as a JSON number.
pub open spec fn u32_of(v: Option<Json>) -> Option<u32> {
    match u64_of(v) {
        Some(n) => if n <= u32::MAX {
            Some(n as u32)
        } else {
            None
        },
        None => None,
    }
}

/// A user id as the platform sends it: a JSON number or a string of decimal
/// digits, either way within `u64`.
pub open spec fn id_of(v: Option<Json>) -> Option<u64> {
    match v {
        Some(Json::Number(t)) => parse_u64_spec(t@),
        Some(Json::Str(s)) => parse_u64_spec(s@),
        _ => None,
    }
}

pub fn string_at(v: Option<&Json>) -> (r: Option<String>)
    ensures
        r == string_of(deref(v)),
{
    match v {
        Some(Json::Str(s)) => Some(s.clone()),
        _ => None,
    }
}

pub fn u64_at(v: Option<&Json>) -> (r: Option<u64>)
    ensures
        r == u64_of(deref(v)),
{
    match v {
        Some(Json::Number(t)) => parse_u64(t.as_str()),
        _ => None,
    }
}

pub fn u32_at(v: Option<&Json>) -> (r: Option<u32>)
    ensures
        r == u32_of(deref(v)),
{
    match u64_at(v) {
        Some(n) => if n <= u32::MAX as u64 {
            Some(n as u32)
        } else {
            None
        },
        None => None,
    }
}

/// Reads a user id that may arrive as a JSON number or as a string.
pub fn u64_from_value(v: Option<&Json>) -> (r: Option<u64>)
    ensures
        r == id_of(deref(v)),
{
    match v {
        Some(Json::Number(t)) => parse_u64(t.as_str()),
        Some(Json::Str(s)) => parse_u64(s.as_str()),
        _ => None,
    }
}

} // verus!
