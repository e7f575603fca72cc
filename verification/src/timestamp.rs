//! Rendering of unix-second timestamps for the wire, through chrono behind
//! a trusted wrapper.
use vstd::prelude::*;

verus! {

/// The largest unix-seconds value this library renders: the last second of
/// year 9999, comfortably inside chrono's documented range.
pub const MAX_RFC3339_SECONDS: u64 = 253402300799;

/// The RFC 3339 rendering of a unix-seconds timestamp in UTC. Names the
/// result of chrono's `to_rfc3339` on `DateTime::from_timestamp`, a
/// function of the seconds alone.
pub uninterp spec fn rfc3339_of(secs: u64) -> Seq<char>;

/// Relies on chrono's `DateTime::from_timestamp` and `to_rfc3339`: renders
/// the timestamp in RFC 3339 UTC form. chrono documents `None` only for an
/// out-of-range number of seconds, so everything up to year 9999 renders.
#[verifier::external_body]
fn rfc3339_string(secs: u64) -> (r: Option<String>)
    ensures
        r matches Some(s) ==> s@ == rfc3339_of(secs),
        secs <= MAX_RFC3339_SECONDS ==> r is Some,
{
    match chrono::DateTime::from_timestamp(secs as i64, 0) {
        Some(dt) => Some(dt.to_rfc3339()),
        None => None,
    }
}

/// What parsing an RFC 3339 date-time yields, as unix seconds: `Some`
/// exactly when the text is well-formed. Names the result of chrono's
/// `DateTime::parse_from_rfc3339`, a function of the text alone.
pub uninterp spec fn rfc3339_value_of(s: Seq<char>) -> Option<i64>;

/// Relies on chrono's `DateTime::parse_from_rfc3339` and `timestamp`:
/// parses an RFC 3339 date-time to unix seconds.
#[verifier::external_body]
pub fn parse_rfc3339(s: &str) -> (r: Option<i64>)
    ensures
        r == rfc3339_value_of(s@),
{
    match chrono::DateTime::parse_from_rfc3339(s) {
        Ok(dt) => Some(dt.timestamp()),
        Err(_) => None,
    }
}

/// Renders an optional stored timestamp for the wire: absent stays absent,
/// anything up to year 9999 becomes its RFC 3339 form.
pub fn format_timestamp(secs: Option<u64>) -> (r: Option<String>)
    ensures
        secs is None ==> r is None,
        (match secs {
            Some(t) => t <= MAX_RFC3339_SECONDS ==> (r matches Some(s) && s@ == rfc3339_of(t)),
            None => true,
        }),
{
    match secs {
        None => None,
        Some(t) => rfc3339_string(t),
    }
}

} // verus!
