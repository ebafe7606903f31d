//! The instants the library works with, and the calls into chrono that read, write and take
//! them.
use vstd::prelude::*;

verus! {

/// An instant as seconds since the Unix epoch and nanoseconds past that second.
/// During a leap second `nanos` may reach past one billion, as chrono allows.
#[derive(Clone, Copy, Debug, PartialEq, Eq, Structural)]
pub struct Timestamp {
    pub secs: i64,
    pub nanos: u32,
}

/// The instant that an RFC 3339 text denotes, as (seconds, nanoseconds), if it parses.
pub uninterp spec fn rfc3339_instant(s: Seq<char>) -> Option<(i64, u32)>;

/// Relies on `chrono::DateTime::parse_from_rfc3339`: whether `s` parses, and the instant it
/// denotes (read back through `DateTime::timestamp` and `DateTime::timestamp_subsec_nanos`),
/// depend on the characters of `s` alone.
#[verifier::external_body]
pub(crate) fn parse_rfc3339(s: &str) -> (r: Option<Timestamp>)
    ensures
        r matches Some(t) ==> rfc3339_instant(s@) == Some((t.secs, t.nanos)),
        r is None ==> rfc3339_instant(s@) is None,
{
    chrono::DateTime::parse_from_rfc3339(s).ok().map(
        |d| Timestamp { secs: d.timestamp(), nanos: d.timestamp_subsec_nanos() },
    )
}

/// Relies on `chrono::Utc::now`: the current instant. Nothing is known of its value.
#[verifier::external_body]
pub(crate) fn now() -> (r: Timestamp) {
    let d = chrono::Utc::now();
    Timestamp { secs: d.timestamp(), nanos: d.timestamp_subsec_nanos() }
}

/// RFC 3339 text for an instant, if chrono can represent it.
pub uninterp spec fn rfc3339_text(secs: i64, nanos: u32) -> Option<Seq<char>>;

/// Relies on `chrono::DateTime::<Utc>::from_timestamp`, which yields `None` for an instant it
/// cannot represent, and on `DateTime::to_rfc3339` for the text of one it can.
#[verifier::external_body]
pub(crate) fn rfc3339_of(t: Timestamp) -> (r: Option<String>)
    ensures
        r matches Some(s) ==> rfc3339_text(t.secs, t.nanos) == Some(s@),
        r is None ==> rfc3339_text(t.secs, t.nanos) is None,
{
    chrono::DateTime::<chrono::Utc>::from_timestamp(t.secs, t.nanos).map(|d| d.to_rfc3339())
}

} // verus!
