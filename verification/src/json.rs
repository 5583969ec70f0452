//! A JSON document as the timetable logic reads it.
//!
//! The application parses the server's text with `serde_json` and hands the
//! value over in this form; objects keep their keys in the parser's order
//! (sorted, each key once).

use vstd::prelude::*;

verus! {

/// A JSON number, by the cases that decide whether it reads as a `u64`.
pub enum JsonNumber {
    /// A non-negative integer.
    PosInt(u64),
    /// A negative integer.
    NegInt(i64),
    /// A number with a fraction or an exponent.
    Fractional,
}

/// A JSON value.
pub enum Json {
    Null,
    Bool(bool),
    Number(JsonNumber),
    Str(String),
    Array(Vec<Json>),
    /// The members of an object, each key once.
    Object(Vec<(String, Json)>),
}

/// The value under `key` among `entries[i..]`, or `Null` when none has that key.
pub open spec fn field_from(entries: Seq<(String, Json)>, key: Seq<char>, i: int) -> Json
    decreases entries.len() - i,
{
    if i < 0 || i >= entries.len() {
        Json::Null
    } else if entries[i].0@ == key {
        entries[i].1
    } else {
        field_from(entries, key, i + 1)
    }
}

/// `value[key]` as `serde_json` indexes a value: the member of an object, or
/// `Null` when the value is no object or has no such member.
pub open spec fn field(v: Json, key: Seq<char>) -> Json {
    match v {
        Json::Object(entries) => field_from(entries@, key, 0),
        _ => Json::Null,
    }
}

/// `as_str`: the characters of a string value.
pub open spec fn as_str(v: Json) -> Option<Seq<char>> {
    match v {
        Json::Str(s) => Some(s@),
        _ => None,
    }
}

/// `as_u64`: the value of a non-negative integer.
pub open spec fn as_u64(v: Json) -> Option<u64> {
    match v {
        Json::Number(JsonNumber::PosInt(n)) => Some(n),
        _ => None,
    }
}

/// `as_array`: the elements of an array value.
pub open spec fn as_array(v: Json) -> Option<Seq<Json>> {
    match v {
        Json::Array(items) => Some(items@),
        _ => None,
    }
}

impl Json {
    /// The member under `key` when this is an object that has one; `None`
    /// stands for the `Null` that indexing gives otherwise.
    pub fn member(&self, key: &str) -> (r: Option<&Json>)
        ensures
            match r {
                Some(m) => *m == field(*self, key@),
                None => field(*self, key@) == Json::Null,
            },
    {
        match self {
            Json::Object(entries) => {
                let k = String::from_str(key);
                let n = entries.len();
                let mut i: usize = 0;
                while i < n
                    invariant
                        i <= n == entries@.len(),
                        k@ == key@,
                        field(*self, key@) == field_from(entries@, key@, i as int),
                    decreases n - i,
                {
                    if entries[i].0 == k {
                        assert(field_from(entries@, key@, i as int) == entries@[i as int].1);
                        return Some(&entries[i].1);
                    }
                    i = i + 1;
                }
                None
            },
            _ => None,
        }
    }

    /// `self[key].as_str()`.
    pub fn member_str(&self, key: &str) -> (r: Option<&String>)
        ensures
            match r {
                Some(s) => as_str(field(*self, key@)) == Some(s@),
                None => as_str(field(*self, key@)) is None,
            },
    {
        match self.member(key) {
            Some(Json::Str(s)) => Some(s),
            _ => None,
        }
    }

    /// `self[key].as_u64()`.
    pub fn member_u64(&self, key: &str) -> (r: Option<u64>)
        ensures
            r == as_u64(field(*self, key@)),
    {
        match self.member(key) {
            Some(Json::Number(JsonNumber::PosInt(n))) => Some(*n),
            _ => None,
        }
    }

    /// `self[key].as_array()`.
    pub fn member_array(&self, key: &str) -> (r: Option<&Vec<Json>>)
        ensures
            match r {
                Some(a) => as_array(field(*self, key@)) == Some(a@),
                None => as_array(field(*self, key@)) is None,
            },
    {
        match self.member(key) {
            Some(Json::Array(a)) => Some(a),
            _ => None,
        }
    }
}

} // verus!
