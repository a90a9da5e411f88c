//! Points in time, read from the system clock and written out by `chrono`.
//!
//! The three functions with a body that calls `chrono` are believed, not
//! proved.

use vstd::prelude::*;

verus! {

/// A point in time: whole seconds since 1970-01-01 00:00:00 UTC, and the
/// nanoseconds that have passed of the second after those.
#[derive(Debug, Clone, Copy, PartialEq, Eq, Structural)]
pub struct Timestamp {
    pub secs: i64,
    pub nanos: u32,
}

/// What `chrono::DateTime::to_rfc3339` writes for the instant that
/// `chrono::DateTime::from_timestamp` makes of `secs` and `nanos`, or `None`
/// where `chrono` has no such instant.
pub uninterp spec fn rfc3339_text(secs: i64, nanos: u32) -> Option<Seq<char>>;

/// What `chrono::DateTime::format` writes, by the `strftime` pattern
/// `pattern`, for the instant that `chrono::DateTime::from_timestamp` makes of
/// `secs` and `nanos`; `None` where `chrono` has no such instant or does not
/// take the pattern.
pub uninterp spec fn formatted_time(secs: i64, nanos: u32, pattern: Seq<char>) -> Option<
    Seq<char>,
>;

/// Reads the clock with `chrono::Utc::now` and hands out what
/// `DateTime::timestamp` and `DateTime::timestamp_subsec_nanos` say of it.
/// Nothing is claimed of the instant. `Utc::now` does not return where the
/// system clock stands before 1970.
#[verifier::external_body]
pub(crate) fn current_time() -> Timestamp {
    let now = chrono::Utc::now();
    Timestamp { secs: now.timestamp(), nanos: now.timestamp_subsec_nanos() }
}

/// Calls `chrono::DateTime::from_timestamp` and, where that yields an
/// instant, `to_rfc3339` on it.
#[verifier::external_body]
pub(crate) fn rfc3339(at: &Timestamp) -> (text: Option<String>)
    ensures
        match text {
            Some(written) => rfc3339_text(at.secs, at.nanos) == Some(written@),
            None => rfc3339_text(at.secs, at.nanos) is None,
        },
{
    chrono::DateTime::from_timestamp(at.secs, at.nanos).map(|time| time.to_rfc3339())
}

/// Calls `chrono::DateTime::from_timestamp` and, where that yields an
/// instant, `format` on it with `pattern`; the text is what `write_to` makes
/// of the result, which fails where the pattern is not one of `chrono`'s.
#[verifier::external_body]
pub(crate) fn format_time(at: &Timestamp, pattern: &str) -> (text: Option<String>)
    ensures
        match text {
            Some(written) => formatted_time(at.secs, at.nanos, pattern@) == Some(written@),
            None => formatted_time(at.secs, at.nanos, pattern@) is None,
        },
{
    let time = chrono::DateTime::from_timestamp(at.secs, at.nanos)?;
    let mut written = String::new();
    time.format(pattern).write_to(&mut written).ok()?;
    Some(written)
}

} // verus!
