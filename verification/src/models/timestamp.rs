//! Times: the current time, and RFC 3339 texts read as Unix seconds,
//! through `chrono`.
use vstd::prelude::*;

verus! {

/// What reading an RFC 3339 text as a UTC date-time and taking its Unix
/// timestamp gives: the seconds, or `None` when the text is refused.
pub uninterp spec fn rfc3339_seconds(s: Seq<char>) -> Option<i64>;

#[verifier::external_type_specification]
#[verifier::external_body]
pub struct ExChronoParseError(chrono::ParseError);

/// Calls `str::parse::<DateTime<Utc>>` and then `timestamp`. Trusted: it
/// succeeds exactly when `rfc3339_seconds` gives seconds, and gives them.
#[verifier::external_body]
fn parse_utc_seconds(s: &str) -> (res: Result<i64, chrono::ParseError>)
    ensures
        res is Ok <==> rfc3339_seconds(s@) is Some,
        res matches Ok(t) ==> rfc3339_seconds(s@) == Some(t),
{
    s.parse::<chrono::DateTime<chrono::Utc>>().map(|dt| dt.timestamp())
}

/// Calls `Utc::now().timestamp_millis()`. Trusted for nothing: the time is
/// the machine's.
#[verifier::external_body]
pub fn now_millis() -> (res: i64) {
    chrono::Utc::now().timestamp_millis()
}

/// Reads an ISO 8601 (RFC 3339) text as Unix seconds.
pub fn from_iso8601_to_timestamp(s: &str) -> (res: Result<i64, chrono::ParseError>)
    ensures
        res is Ok <==> rfc3339_seconds(s@) is Some,
        res matches Ok(t) ==> rfc3339_seconds(s@) == Some(t),
{
    parse_utc_seconds(s)
}

} // verus!
