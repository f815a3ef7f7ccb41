//! RFC 3339 timestamps at the persistence boundary, through chrono.
//!
//! The rendering of an epoch-second count, and the instant a timestamp
//! string denotes, are functions of the text alone; they are named here
//! rather than spelled out, and chrono computes them.

use vstd::prelude::*;

use crate::clock::MAX_EPOCH_SECONDS;

verus! {

/// The RFC 3339 rendering of an epoch-second count, as chrono's
/// `DateTime::<Utc>::from_timestamp` followed by `DateTime::to_rfc3339`
/// produces it.
pub uninterp spec fn rfc3339_render(secs: int) -> Seq<char>;

/// The epoch-second count an RFC 3339 string denotes, or `None` if the
/// string is not a valid RFC 3339 date-and-time, as chrono's
/// `DateTime::parse_from_rfc3339` followed by `DateTime::timestamp`
/// computes it.
pub uninterp spec fn rfc3339_epoch(s: Seq<char>) -> Option<int>;

/// Relies on chrono's `DateTime::<Utc>::from_timestamp` and
/// `DateTime::to_rfc3339`: every epoch-second count up to the year 9999
/// has an RFC 3339 rendering, and `DateTime::parse_from_rfc3339` parses
/// every RFC 3339 string chrono produces back to the same timestamp, as
/// its documentation promises of all valid RFC 3339 values. Outside that
/// range chrono may render a signed five-digit year that RFC 3339 has no
/// room for and its parser rejects, so nothing is promised there.
#[verifier::external_body]
pub(crate) fn format_epoch_rfc3339(secs: i64) -> (r: Option<String>)
    ensures
        0 <= secs <= MAX_EPOCH_SECONDS ==> r is Some,
        r matches Some(s) ==> (0 <= secs <= MAX_EPOCH_SECONDS ==> s@ == rfc3339_render(
            secs as int,
        )),
        r matches Some(s) ==> (0 <= secs <= MAX_EPOCH_SECONDS ==> rfc3339_epoch(s@) == Some(
            secs as int,
        )),
{
    match chrono::DateTime::<chrono::Utc>::from_timestamp(secs, 0) {
        Some(dt) => Some(dt.to_rfc3339()),
        None => None,
    }
}

/// Relies on chrono's `DateTime::parse_from_rfc3339` and
/// `DateTime::timestamp`: a valid RFC 3339 string denotes one instant,
/// a pure function of the text, and an invalid one is rejected.
#[verifier::external_body]
pub(crate) fn parse_epoch_rfc3339(s: &str) -> (r: Option<i64>)
    ensures
        r matches Some(t) ==> rfc3339_epoch(s@) == Some(t as int),
        r is Some <==> rfc3339_epoch(s@) is Some,
{
    match chrono::DateTime::parse_from_rfc3339(s) {
        Ok(dt) => Some(dt.timestamp()),
        Err(_) => None,
    }
}

} // verus!
