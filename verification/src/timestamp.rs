//! Points in time, as responses carry them: RFC 3339 text.

use vstd::prelude::*;
use crate::decode::Decode;
use crate::error::{DecodeError, ErrorKind};
use crate::json::{Json, JsonView};

verus! {

/// A point in time together with the offset from UTC that it was written in.
#[derive(Debug, Clone, Copy, PartialEq, Eq)]
pub struct Timestamp {
    /// Nanoseconds since 1970-01-01 00:00:00 UTC.
    pub unix_nanos: i128,
    /// Seconds that the written local time is ahead of UTC.
    pub offset_seconds: i32,
}

impl DeepView for Timestamp {
    type V = Timestamp;

    open spec fn deep_view(&self) -> Timestamp {
        *self
    }
}

/// What `time::OffsetDateTime::parse` makes of `text` under the well-known
/// format `Rfc3339`: the instant and offset of the date-time it returns, or
/// `None` where it returns an error.
pub uninterp spec fn rfc3339_instant(text: Seq<char>) -> Option<Timestamp>;

/// Calls `time::OffsetDateTime::parse` with the well-known format `Rfc3339`,
/// which is what `time::serde::rfc3339` applies to a string. The parser reads
/// nothing but its input, so the contract only gives its result a name; of a
/// date-time that was read it keeps `unix_timestamp_nanos()` and the whole
/// seconds of `offset()`.
#[verifier::external_body]
fn parse_rfc3339(text: &str) -> (r: Option<Timestamp>)
    ensures
        r == rfc3339_instant(text@),
{
    match time::OffsetDateTime::parse(text, &time::format_description::well_known::Rfc3339) {
        Ok(t) => Some(
            Timestamp { unix_nanos: t.unix_timestamp_nanos(), offset_seconds: t.offset().whole_seconds() },
        ),
        Err(_) => None,
    }
}

impl Timestamp {
    /// What a timestamp field makes of the outcome of reading its text.
    pub open spec fn accepted(parsed: Option<Timestamp>) -> Result<Timestamp, DecodeError> {
        match parsed {
            Some(t) => Ok(t),
            None => Err(DecodeError::here(ErrorKind::MalformedTimestamp)),
        }
    }

    /// Turns the outcome of reading a timestamp's text into the outcome of
    /// the decode: text that was not understood is a hard failure.
    pub fn from_parsed(parsed: Option<Timestamp>) -> (r: Result<Timestamp, DecodeError>)
        ensures
            r == Timestamp::accepted(parsed),
    {
        match parsed {
            Some(t) => Ok(t),
            None => Err(DecodeError::at_root(ErrorKind::MalformedTimestamp)),
        }
    }

    /// Reads RFC 3339 text.
    pub fn parse(text: &str) -> (r: Result<Timestamp, DecodeError>)
        ensures
            r == Timestamp::accepted(rfc3339_instant(text@)),
    {
        Timestamp::from_parsed(parse_rfc3339(text))
    }
}

/// A timestamp is a string in RFC 3339 format; nothing more lenient is read.
impl Decode for Timestamp {
    open spec fn decoded(j: JsonView) -> Result<Timestamp, DecodeError> {
        match j {
            JsonView::Text(s) => Timestamp::accepted(rfc3339_instant(s)),
            _ => Err(DecodeError::here(ErrorKind::WrongShape)),
        }
    }

    fn decode(j: &Json) -> (r: Result<Self, DecodeError>) {
        match j {
            Json::Text(s) => Timestamp::parse(s.as_str()),
            _ => Err(DecodeError::at_root(ErrorKind::WrongShape)),
        }
    }
}

} // verus!
