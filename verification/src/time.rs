//! Points in time, as the plain values that the tracker's rules read.

use crate::text::text_of;
use std::fmt::Write;
use vstd::prelude::*;

verus! {

/// The text that chrono writes for the instant `secs` seconds and `nanos`
/// nanoseconds after 1970-01-01 00:00:00 UTC, shown at `offset` seconds east
/// of UTC, under the strftime pattern `pattern`; `None` where chrono has no
/// date for these numbers or does not know the pattern.
pub uninterp spec fn formatted(secs: int, nanos: int, offset: int, pattern: Seq<char>) -> Option<
    Seq<char>,
>;


/// A point in time together with the local offset in force at it.
///
/// `secs` counts the non-leap seconds since 1970-01-01 00:00:00 UTC, `nanos`
/// the nanoseconds since the last second boundary, and `offset` the seconds by
/// which local time is ahead of UTC.
#[derive(Clone, Copy, Debug, PartialEq, Eq, Structural)]
pub struct Timestamp {
    pub secs: i64,
    pub nanos: u32,
    pub offset: i32,
}

impl Timestamp {
    /// Whether `self` is the same instant as `other` or a later one. The
    /// offset plays no part: it says how an instant is shown, not when it is.
    pub open spec fn at_or_after(self, other: Timestamp) -> bool {
        self.secs > other.secs || (self.secs == other.secs && self.nanos >= other.nanos)
    }

    /// Makes a timestamp of its three parts.
    pub fn new(secs: i64, nanos: u32, offset: i32) -> (r: Timestamp)
        ensures
            r == (Timestamp { secs, nanos, offset }),
    {
        Timestamp { secs, nanos, offset }
    }

    /// Whether `self` is the same instant as `other` or a later one.
    pub fn is_at_or_after(&self, other: &Timestamp) -> (r: bool)
        ensures
            r == self.at_or_after(*other),
    {
        self.secs > other.secs || (self.secs == other.secs && self.nanos >= other.nanos)
    }

    /// The text of this timestamp under the strftime pattern `pattern`.
    pub open spec fn formatted_as(self, pattern: Seq<char>) -> Option<Seq<char>> {
        formatted(self.secs as int, self.nanos as int, self.offset as int, pattern)
    }

    /// Writes this timestamp as local time under the strftime pattern
    /// `pattern`, if it has a date and the pattern is known.
    pub fn format(&self, pattern: &str) -> (r: Option<String>)
        ensures
            text_of(r) == self.formatted_as(pattern@),
    {
        format_instant(self.secs, self.nanos, self.offset, pattern)
    }

}

/// Writes an instant with chrono: `FixedOffset::east_opt` for the offset,
/// `DateTime::from_timestamp` for the instant, `with_timezone` to show it at
/// that offset, and `format` for the text. The contract claims that the text
/// depends on the four arguments alone, and gives it the name `formatted`;
/// what the text is, it does not say. `None` stands for an offset or an
/// instant that chrono refuses and for a pattern that it cannot write.
#[verifier::external_body]
fn format_instant(secs: i64, nanos: u32, offset: i32, pattern: &str) -> (r: Option<String>)
    ensures
        text_of(r) == formatted(secs as int, nanos as int, offset as int, pattern@),
{
    let zone = chrono::FixedOffset::east_opt(offset)?;
    let instant = chrono::DateTime::from_timestamp(secs, nanos)?.with_timezone(&zone);
    let mut text = String::new();
    match write!(text, "{}", instant.format(pattern)) {
        Ok(()) => Some(text),
        Err(_) => None,
    }
}

/// Reads the clock: `chrono::Local::now()`, as the seconds and nanoseconds of
/// its instant and the local offset that it carries. Nothing is claimed of the
/// result: the clock may show any time, also one before an earlier reading.
///
/// # Panics
///
/// chrono panics where the system clock stands before 1970, and where the
/// zone data of the system give no local offset for the present instant.
#[verifier::external_body]
pub(crate) fn clock_now() -> Timestamp {
    let now = chrono::Local::now();
    Timestamp {
        secs: now.timestamp(),
        nanos: now.timestamp_subsec_nanos(),
        offset: now.offset().local_minus_utc(),
    }
}

} // verus!
