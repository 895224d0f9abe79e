//! Date-times as the service writes them, and its stand-in for a null one.

use vstd::prelude::*;

verus! {

/// The text the service sends in place of `null` for an absent date-time.
pub const NULL_TIMESTAMP: &'static str = "0001-01-01T00:00:00";

/// A point in time: whole seconds since the Unix epoch and the nanoseconds
/// past that second, kept with the text it was read from.
#[derive(Debug)]
pub struct Timestamp {
    pub text: String,
    pub seconds: i64,
    pub nanos: u32,
}

/// The instant that a date-time text denotes, as seconds since the Unix epoch
/// and nanoseconds, or `None` where the text is not a date-time with an offset.
pub uninterp spec fn instant_of(s: Seq<char>) -> Option<(i64, u32)>;

/// Relies on chrono's `FromStr` for `DateTime<Utc>` (a relaxed RFC 3339
/// reading, which needs an offset) and on its `timestamp` and
/// `timestamp_subsec_nanos`: the result depends on the text alone.
#[verifier::external_body]
fn parse_instant(s: &str) -> (r: Option<(i64, u32)>)
    ensures
        r == instant_of(s@),
{
    match s.parse::<chrono::DateTime<chrono::Utc>>() {
        Ok(d) => Some((d.timestamp(), d.timestamp_subsec_nanos())),
        Err(_) => None,
    }
}

/// The timestamp that a text and the instant read from it make.
pub open spec fn timestamp_spec(text: String, instant: Option<(i64, u32)>) -> Option<Timestamp> {
    match instant {
        Some(p) => Some(Timestamp { text, seconds: p.0, nanos: p.1 }),
        None => None,
    }
}

/// Pairs a date-time text with the instant read from it; `None` where
/// nothing could be read.
pub fn timestamp_from_instant(text: String, instant: Option<(i64, u32)>) -> (r: Option<Timestamp>)
    ensures
        r == timestamp_spec(text, instant),
{
    match instant {
        Some(p) => Some(Timestamp { text, seconds: p.0, nanos: p.1 }),
        None => None,
    }
}

/// Reads a date-time text.
pub fn parse_timestamp(text: String) -> (r: Option<Timestamp>)
    ensures
        r == timestamp_spec(text, instant_of(text@)),
{
    let instant = parse_instant(text.as_str());
    timestamp_from_instant(text, instant)
}

/// Whether a text is the service's stand-in for a null date-time.
pub fn is_null_timestamp(text: &String) -> (r: bool)
    ensures
        r == (text@ == NULL_TIMESTAMP@),
{
    let sentinel = NULL_TIMESTAMP.to_owned();
    *text == sentinel
}

/// What a date-time field that may hold the null stand-in reads as: nothing
/// for the stand-in, else the timestamp, or `None` inside `Some` where the
/// text is no date-time.
pub open spec fn nullable_datetime_spec(text: String) -> Option<Option<Timestamp>> {
    if text@ == NULL_TIMESTAMP@ {
        Some(None)
    } else {
        match timestamp_spec(text, instant_of(text@)) {
            Some(t) => Some(Some(t)),
            None => None,
        }
    }
}

/// Reads a date-time field whose null is written as `NULL_TIMESTAMP`:
/// `Some(None)` for the stand-in, `Some(Some(t))` for a date-time, and `None`
/// where the text is neither.
pub fn nullable_datetime(text: String) -> (r: Option<Option<Timestamp>>)
    ensures
        r == nullable_datetime_spec(text),
{
    if is_null_timestamp(&text) {
        Some(None)
    } else {
        match parse_timestamp(text) {
            Some(t) => Some(Some(t)),
            None => None,
        }
    }
}

/// Reads a text field whose absence the service may write as an empty
/// string: an empty string reads as nothing.
pub fn nullable_string(s: Option<String>) -> (r: Option<String>)
    ensures
        r == (match s {
            Some(t) => if t@.len() == 0 { None } else { Some(t) },
            None => None,
        }),
{
    match s {
        Some(t) => if t.as_str().is_empty() { None } else { Some(t) },
        None => None,
    }
}

} // verus!
