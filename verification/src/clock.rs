//! Points in time, from the `chrono` crate.
//!
//! Timestamps are whole seconds and nanoseconds since the Unix epoch; the
//! current time and the reading and writing of RFC 3339 text are chrono's.

use chrono::{DateTime, Utc};
use vstd::prelude::*;

verus! {

/// Seconds and nanoseconds since the Unix epoch.
#[derive(Debug, Clone, Copy, PartialEq, Eq, Structural)]
pub struct Instant {
    pub seconds: i64,
    pub nanos: u32,
}

/// Nanoseconds since the epoch.
pub open spec fn total_nanos(t: Instant) -> int {
    t.seconds * 1_000_000_000 + t.nanos
}

/// The instant that an RFC 3339 timestamp denotes, as
/// `chrono::DateTime::parse_from_rfc3339` reads it.
pub uninterp spec fn rfc3339_instant(s: Seq<char>) -> Option<Instant>;

/// Seconds beyond which chrono represents no instant (its dates end
/// within about 262,000 years of the epoch).
pub const CHRONO_SECONDS_BOUND: i64 = 10_000_000_000_000;

/// Calls `chrono::Utc::now` and reads the result as seconds and
/// nanoseconds since the epoch. Of the current time nothing is claimed but
/// what holds of every instant chrono represents: the nanoseconds stay
/// below two seconds' worth (a leap second runs past one) and the seconds
/// within chrono's range of dates.
#[verifier::external_body]
pub(crate) fn now() -> (r: Instant)
    ensures
        r.nanos < 2_000_000_000,
        -CHRONO_SECONDS_BOUND < r.seconds < CHRONO_SECONDS_BOUND,
{
    let t = Utc::now();
    Instant { seconds: t.timestamp(), nanos: t.timestamp_subsec_nanos() }
}

/// Calls `chrono::DateTime::parse_from_rfc3339`; `None` when chrono refuses
/// the text.
#[verifier::external_body]
pub(crate) fn parse_rfc3339(s: &str) -> (r: Option<Instant>)
    ensures
        r == rfc3339_instant(s@),
{
    match DateTime::parse_from_rfc3339(s) {
        Ok(t) => Some(Instant { seconds: t.timestamp(), nanos: t.timestamp_subsec_nanos() }),
        Err(_) => None,
    }
}

/// Whether less than `min_seconds` have passed from `earlier` to `later`.
pub fn within_interval(earlier: Instant, later: Instant, min_seconds: u64) -> (r: bool)
    ensures
        r == (total_nanos(later) - total_nanos(earlier) < min_seconds * 1_000_000_000),
{
    let e = (later.seconds as i128 - earlier.seconds as i128) * 1_000_000_000i128 + (later.nanos as i128
        - earlier.nanos as i128);
    let m = (min_seconds as i128) * 1_000_000_000i128;
    e < m
}

/// The text that chrono writes for `t` in UTC with the format
/// `%Y-%m-%d %H:%M:%S UTC`.
pub uninterp spec fn utc_text(t: Instant) -> Seq<char>;

/// Calls `chrono::DateTime::from_timestamp` and formats the instant with
/// `%Y-%m-%d %H:%M:%S UTC`; empty when chrono cannot represent the
/// instant. Only that the text is a function of the instant is stated.
#[verifier::external_body]
pub(crate) fn format_utc(t: Instant) -> (r: String)
    ensures
        r@ == utc_text(t),
{
    match DateTime::from_timestamp(t.seconds, t.nanos) {
        Some(d) => d.format("%Y-%m-%d %H:%M:%S UTC").to_string(),
        None => String::new(),
    }
}

} // verus!
