//! The errors that a request for a record or a page can end in.

use vstd::prelude::*;

use crate::decode::DecodeCause;

verus! {

/// One step of the path to a value inside a JSON document.
#[derive(Debug)]
pub enum PathSegment {
    /// A member of an object, by key.
    Field(String),
    /// An element of an array, by position.
    Index(usize),
}

/// One step of a path, as contracts see it.
pub enum PathStep {
    Field(Seq<char>),
    Index(int),
}

impl View for PathSegment {
    type V = PathStep;

    open spec fn view(&self) -> PathStep {
        match self {
            PathSegment::Field(s) => PathStep::Field(s@),
            PathSegment::Index(i) => PathStep::Index(*i as int),
        }
    }
}

/// A response body that did not match the shape expected of it.
#[derive(Debug)]
pub struct DecodeError {
    /// The body as received.
    pub bytes: Vec<u8>,
    /// Where in the document decoding failed; empty for the document itself.
    pub path: Vec<PathSegment>,
    /// Why it failed there.
    pub cause: DecodeCause,
}

/// The errors of the client.
#[derive(Debug)]
pub enum Error {
    /// The request could not be made or its response not received.
    Request(String),
    /// The service answered with a status other than `200 OK`.
    StatusNotOk { status: u16, bytes: Vec<u8> },
    /// The response body did not decode.
    Deserialize(DecodeError),
    /// A page's descriptor disagrees with the request or with the page: the
    /// offset that was asked for, and what the descriptor and the page hold.
    ProtocolViolation { requested: usize, index: i32, result_count: i32, received: usize },
    /// The base URL did not parse; the parser's message.
    ParseUrl(String),
    /// The base URL cannot have paths joined to it.
    BadBaseUrl,
}

} // verus!
