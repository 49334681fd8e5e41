//! The one timestamp operation the wire format needs: recognising an
//! RFC 3339 date-time and reducing it to seconds since the Unix epoch.

use vstd::prelude::*;

verus! {

/// What `chrono` makes of a piece of text as an RFC 3339 date-time:
/// seconds since the Unix epoch, or nothing when the text is not a
/// valid timestamp.
pub uninterp spec fn datetime_utc(s: Seq<char>) -> Option<i64>;

/// Relies on `chrono::DateTime::parse_from_rfc3339`: accepts exactly
/// the RFC 3339 date-times; the outcome depends on the text alone.
#[verifier::external_body]
pub fn parse_rfc3339_utc(s: &str) -> (r: Option<i64>)
    ensures
        r == datetime_utc(s@),
{
    match chrono::DateTime::parse_from_rfc3339(s) {
        Ok(d) => Some(d.timestamp()),
        Err(_) => None,
    }
}

} // verus!
