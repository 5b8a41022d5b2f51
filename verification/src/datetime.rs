//! Reading stored date-times (RFC 3339 text) as instants.

use crate::value_objects::Timestamp;
use vstd::prelude::*;

verus! {

/// The error of a failed date-time parse.
#[verifier::external_type_specification]
#[verifier::external_body]
pub struct ExParseError(chrono::ParseError);

/// The instant (whole seconds since the Unix epoch and nanoseconds into the
/// second) that RFC 3339 text denotes, if it is valid RFC 3339.
pub uninterp spec fn rfc3339_instant(text: Seq<char>) -> Option<(i64, u32)>;

/// Calls `chrono::DateTime::parse_from_rfc3339` and reads the instant of the
/// result (`timestamp`, `timestamp_subsec_nanos`): the outcome is named
/// `rfc3339_instant` of the text, `None` standing for the parse error.
#[verifier::external_body]
fn parse_rfc3339(s: &str) -> (r: Result<(i64, u32), chrono::ParseError>)
    ensures
        match r {
            Ok(p) => rfc3339_instant(s@) == Some(p),
            Err(_) => rfc3339_instant(s@) is None,
        },
{
    match chrono::DateTime::parse_from_rfc3339(s) {
        Ok(dt) => Ok((dt.timestamp(), dt.timestamp_subsec_nanos())),
        Err(e) => Err(e),
    }
}

/// The instant of a parse, or `default` where the text did not parse.
pub fn instant_or(parsed: Option<(i64, u32)>, default: Timestamp) -> (t: Timestamp)
    ensures
        t == match parsed {
            Some(p) => Timestamp { unix_seconds: p.0, subsec_nanos: p.1 },
            None => default,
        },
{
    match parsed {
        Some(p) => Timestamp::from_unix(p.0, p.1),
        None => default,
    }
}

/// Parses RFC 3339 text (any offset) into the instant it denotes.
pub fn parse_datetime(s: &str) -> (r: Result<Timestamp, chrono::ParseError>)
    ensures
        match rfc3339_instant(s@) {
            Some(p) => r matches Ok(t) && t == (Timestamp { unix_seconds: p.0, subsec_nanos: p.1 }),
            None => r is Err,
        },
{
    match parse_rfc3339(s) {
        Ok(p) => Ok(Timestamp::from_unix(p.0, p.1)),
        Err(e) => Err(e),
    }
}

/// Parses RFC 3339 text, or gives `default` where it is not valid.
pub fn parse_datetime_or(s: &str, default: Timestamp) -> (t: Timestamp)
    ensures
        t == match rfc3339_instant(s@) {
            Some(p) => Timestamp { unix_seconds: p.0, subsec_nanos: p.1 },
            None => default,
        },
{
    let parsed = match parse_rfc3339(s) {
        Ok(p) => Some(p),
        Err(_) => None,
    };
    instant_or(parsed, default)
}

} // verus!
