//! The base URL that every request path is joined to.

use vstd::prelude::*;

use crate::error::Error;

verus! {

/// The URL that a text parses to, in its serialized form, with whether it
/// cannot be a base; `None` where the text is not a URL.
pub uninterp spec fn parsed_url(s: Seq<char>) -> Option<(Seq<char>, bool)>;

/// Relies on url's `Url::parse`, `Url::as_str` and `Url::cannot_be_a_base`:
/// the serialized URL and the flag depend on the text alone. On failure,
/// the parser's message.
#[verifier::external_body]
fn parse_url(s: &str) -> (r: Result<(String, bool), String>)
    ensures
        match r {
            Ok(p) => parsed_url(s@) == Some((p.0@, p.1)),
            Err(_) => parsed_url(s@) is None,
        },
{
    match url::Url::parse(s) {
        Ok(u) => Ok((u.as_str().to_owned(), u.cannot_be_a_base())),
        Err(e) => Err(e.to_string()),
    }
}

/// Checks a parsed URL as a base: a URL that cannot be a base is refused,
/// and a parse failure is handed on with its message.
pub fn check_base_url(parsed: Result<(String, bool), String>) -> (r: Result<String, Error>)
    ensures
        match parsed {
            Ok(p) => if p.1 {
                r matches Err(Error::BadBaseUrl)
            } else {
                r == Ok::<String, Error>(p.0)
            },
            Err(m) => r == Err::<String, Error>(Error::ParseUrl(m)),
        },
{
    match parsed {
        Ok((u, cannot_be_a_base)) => if cannot_be_a_base {
            Err(Error::BadBaseUrl)
        } else {
            Ok(u)
        },
        Err(m) => Err(Error::ParseUrl(m)),
    }
}

/// Parses and checks the base URL of the service: its serialized form, or
/// `ParseUrl` where the text is no URL, or `BadBaseUrl` where it cannot be
/// a base.
pub fn base_url(s: &str) -> (r: Result<String, Error>)
    ensures
        match parsed_url(s@) {
            Some(p) => if p.1 {
                r matches Err(Error::BadBaseUrl)
            } else {
                r matches Ok(u) && u@ == p.0
            },
            None => r matches Err(Error::ParseUrl(_)),
        },
{
    check_base_url(parse_url(s))
}

} // verus!
