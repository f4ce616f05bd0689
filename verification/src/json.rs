//! The JSON values that stratum messages carry, as plain data.
use vstd::prelude::*;

verus! {

/// A JSON number as the pool sent it.
#[derive(Debug, PartialEq)]
pub enum JsonNumber {
    /// A non-negative integer.
    PosInt(u64),
    /// A negative integer.
    NegInt(i64),
    /// A number with a fraction or an exponent, kept as its JSON text; no message field that
    /// the miner decides on is one, so it is only carried along.
    Float(String),
}

/// A JSON value. Object members are kept as a list of key and value pairs, in the order in
/// which the caller lists them (a reader that stores objects as a sorted map hands them over
/// sorted by key).
#[derive(Debug, PartialEq)]
pub enum JsonValue {
    Null,
    Bool(bool),
    Number(JsonNumber),
    String(String),
    Array(Vec<JsonValue>),
    Object(Vec<(String, JsonValue)>),
}

/// The JSON integer `n`.
pub open spec fn json_int(n: u64) -> JsonValue {
    JsonValue::Number(JsonNumber::PosInt(n))
}

impl JsonValue {
    /// The `i`-th element of an array; nothing for other values or out of range.
    pub open spec fn spec_at(self, i: int) -> Option<JsonValue> {
        match self {
            JsonValue::Array(items) => if 0 <= i < items@.len() {
                Some(items@[i])
            } else {
                None
            },
            _ => None,
        }
    }

    /// The text of a string value.
    pub open spec fn spec_str(self) -> Option<Seq<char>> {
        match self {
            JsonValue::String(s) => Some(s@),
            _ => None,
        }
    }

    /// The value of a non-negative integer.
    pub open spec fn spec_u64(self) -> Option<u64> {
        match self {
            JsonValue::Number(JsonNumber::PosInt(n)) => Some(n),
            _ => None,
        }
    }

    /// The value of a boolean.
    pub open spec fn spec_bool(self) -> Option<bool> {
        match self {
            JsonValue::Bool(b) => Some(b),
            _ => None,
        }
    }

    /// The `i`-th element of an array value.
    pub fn at(&self, i: usize) -> (r: Option<&JsonValue>)
        ensures
            match r {
                Some(v) => self.spec_at(i as int) == Some(*v),
                None => self.spec_at(i as int) is None,
            },
    {
        match self {
            JsonValue::Array(items) => {
                if i < items.len() {
                    Some(&items[i])
                } else {
                    None
                }
            },
            _ => None,
        }
    }

    /// The text of a string value.
    pub fn as_str(&self) -> (r: Option<&str>)
        ensures
            match r {
                Some(s) => self.spec_str() == Some(s@),
                None => self.spec_str() is None,
            },
    {
        match self {
            JsonValue::String(s) => Some(s.as_str()),
            _ => None,
        }
    }

    /// The value of a non-negative integer.
    pub fn as_u64(&self) -> (r: Option<u64>)
        ensures
            r == self.spec_u64(),
    {
        match self {
            JsonValue::Number(JsonNumber::PosInt(n)) => Some(*n),
            _ => None,
        }
    }

    /// The value of a boolean.
    pub fn as_bool(&self) -> (r: Option<bool>)
        ensures
            r == self.spec_bool(),
    {
        match self {
            JsonValue::Bool(b) => Some(*b),
            _ => None,
        }
    }
}

/// The element at `i` of an optional array, read as text.
pub open spec fn str_at(v: Option<JsonValue>, i: int) -> Option<Seq<char>> {
    match v {
        Some(a) => match a.spec_at(i) {
            Some(e) => e.spec_str(),
            None => None,
        },
        None => None,
    }
}

/// The element at `i` of an optional array, read as a non-negative integer.
pub open spec fn u64_at(v: Option<JsonValue>, i: int) -> Option<u64> {
    match v {
        Some(a) => match a.spec_at(i) {
            Some(e) => e.spec_u64(),
            None => None,
        },
        None => None,
    }
}

/// The element at `i` of an optional array, read as a boolean.
pub open spec fn bool_at(v: Option<JsonValue>, i: int) -> Option<bool> {
    match v {
        Some(a) => match a.spec_at(i) {
            Some(e) => e.spec_bool(),
            None => None,
        },
        None => None,
    }
}

/// Reads the element at `i` of an optional array as text, copied.
pub fn read_str_at(v: &Option<JsonValue>, i: usize) -> (r: Option<String>)
    ensures
        match r {
            Some(s) => str_at(*v, i as int) == Some(s@),
            None => str_at(*v, i as int) is None,
        },
{
    match v {
        Some(a) => match a.at(i) {
            Some(e) => match e.as_str() {
                Some(s) => Some(s.to_owned()),
                None => None,
            },
            None => None,
        },
        None => None,
    }
}

/// Reads the element at `i` of an optional array as a non-negative integer.
pub fn read_u64_at(v: &Option<JsonValue>, i: usize) -> (r: Option<u64>)
    ensures
        r == u64_at(*v, i as int),
{
    match v {
        Some(a) => match a.at(i) {
            Some(e) => e.as_u64(),
            None => None,
        },
        None => None,
    }
}

/// Reads the element at `i` of an optional array as a boolean.
pub fn read_bool_at(v: &Option<JsonValue>, i: usize) -> (r: Option<bool>)
    ensures
        r == bool_at(*v, i as int),
{
    match v {
        Some(a) => match a.at(i) {
            Some(e) => e.as_bool(),
            None => None,
        },
        None => None,
    }
}

} // verus!
