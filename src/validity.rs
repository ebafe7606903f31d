//! The validity computation: from an expiration timestamp to a duration in seconds.
use crate::error::ErrorKind;
use crate::text::{is_blank, is_blank_str};
use crate::time::{now, parse_rfc3339, rfc3339_instant, Timestamp};
use vstd::prelude::*;

verus! {

pub const NANOS_PER_SEC: i128 = 1_000_000_000;

/// Nanoseconds since the epoch.
pub open spec fn total_nanos(t: Timestamp) -> int {
    t.secs * 1_000_000_000 + t.nanos
}

/// Whole seconds from `from` to `to`, truncated toward zero (negative when `to` is earlier).
pub open spec fn seconds_between(from: Timestamp, to: Timestamp) -> int {
    let d = total_nanos(to) - total_nanos(from);
    if d >= 0 {
        d / 1_000_000_000
    } else {
        -((-d) / 1_000_000_000)
    }
}

/// A duration capped from above at `max`, and held within `i64` from below.
pub open spec fn capped(d: int, max: i64) -> i64 {
    if d > max {
        max
    } else if d < i64::MIN {
        i64::MIN
    } else {
        d as i64
    }
}

/// What the validity computation yields for expiration text `s`, cap `max` and instant `now`.
pub open spec fn validity_spec(s: Seq<char>, max: i64, now: Timestamp) -> Result<i64, ErrorKind> {
    if is_blank(s) {
        Err(ErrorKind::EmptyArgument)
    } else {
        match rfc3339_instant(s) {
            None => Err(ErrorKind::InvalidIso8601),
            Some((secs, nanos)) => Ok(
                capped(seconds_between(now, Timestamp { secs, nanos }), max),
            ),
        }
    }
}

/// Whole seconds from `from` to `to`, truncated toward zero.
pub fn seconds_from(from: Timestamp, to: Timestamp) -> (r: i128)
    ensures
        r == seconds_between(from, to),
{
    let a: i128 = to.secs as i128 * NANOS_PER_SEC + to.nanos as i128;
    let b: i128 = from.secs as i128 * NANOS_PER_SEC + from.nanos as i128;
    let d: i128 = a - b;
    if d >= 0 {
        d / NANOS_PER_SEC
    } else {
        -((-d) / NANOS_PER_SEC)
    }
}

/// The validity in seconds of a certificate that expires at `expiration`, seen at `now`:
/// the time between the two, capped at `max`.
pub fn validity_at(expiration: &str, max: i64, now: Timestamp) -> (r: Result<i64, ErrorKind>)
    ensures
        r == validity_spec(expiration@, max, now),
{
    if is_blank_str(expiration) {
        return Err(ErrorKind::EmptyArgument);
    }
    match parse_rfc3339(expiration) {
        None => Err(ErrorKind::InvalidIso8601),
        Some(t) => {
            let d = seconds_from(now, t);
            if d > max as i128 {
                Ok(max)
            } else if d < i64::MIN as i128 {
                Ok(i64::MIN)
            } else {
                Ok(d as i64)
            }
        },
    }
}

/// The validity in seconds of a certificate that expires at `expiration`, from the current
/// instant, capped at `max`.
pub fn compute_validity(expiration: &str, max: i64) -> (r: Result<i64, ErrorKind>)
    ensures
        exists|t: Timestamp| r == validity_spec(expiration@, max, t),
{
    let t = now();
    validity_at(expiration, max, t)
}

} // verus!
