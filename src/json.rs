//! An owned model of a decoded JSON document.

use vstd::prelude::*;

verus! {

/// A JSON value. Objects keep their members in document order; numbers that
/// fit an `i64` are held as integers, any other number as its source text.
#[derive(Debug)]
pub enum Json {
    Null,
    Bool(bool),
    Int(i64),
    Number(String),
    Str(String),
    Array(Vec<Json>),
    Object(Vec<Member>),
}

/// One member of a JSON object: its key and its value.
pub type Member = (String, Json);

impl Json {
    /// Whether this value is the JSON `null`.
    pub fn is_null(&self) -> (r: bool)
        ensures
            r == (*self is Null),
    {
        match self {
            Json::Null => true,
            _ => false,
        }
    }
}

} // verus!
