//! Points in time, read from and written as text.

use std::fmt::Write;
use vstd::prelude::*;

verus! {

/// The seconds since the start of 1970, UTC, of the point in time that a
/// text in the RFC 3339 format names; `None` for any other text.
pub uninterp spec fn rfc3339_seconds(text: Seq<char>) -> Option<i64>;

/// `chrono::DateTime::parse_from_rfc3339`, then `chrono::DateTime::timestamp`
/// on what it parsed: the Unix time of an RFC 3339 date and time, which
/// depends on the text alone.
#[verifier::external_body]
pub(crate) fn rfc3339_timestamp(text: &str) -> (r: Option<i64>)
    ensures
        r == rfc3339_seconds(text@),
{
    match chrono::DateTime::parse_from_rfc3339(text) {
        Ok(time) => Some(time.timestamp()),
        Err(_) => None,
    }
}

/// The date and time, in UTC, of the given seconds since the start of
/// 1970, written as the pattern says, in which `%Y`, `%m`, `%d`, `%H`, `%M`
/// and `%S` stand for year, month, day, hours, minutes and seconds;
/// `None` for seconds beyond the years that can be told, and for a
/// pattern that cannot be written by.
pub uninterp spec fn utc_text(seconds: i64, pattern: Seq<char>) -> Option<Seq<char>>;

/// `chrono::TimeZone::timestamp_opt` on `chrono::Utc`, then
/// `chrono::DateTime::format` with the pattern on the one time it gives:
/// the text depends on the seconds and the pattern alone. Where the
/// pattern cannot be written by, writing fails and there is no text.
#[verifier::external_body]
pub(crate) fn utc_date_time(seconds: i64, pattern: &str) -> (r: Option<String>)
    ensures
        r.deep_view() == utc_text(seconds, pattern@),
{
    let time = match chrono::TimeZone::timestamp_opt(&chrono::Utc, seconds, 0).single() {
        Some(time) => time,
        None => return None,
    };
    let mut out = String::new();
    match write!(out, "{}", time.format(pattern)) {
        Ok(()) => Some(out),
        Err(_) => None,
    }
}

} // verus!
