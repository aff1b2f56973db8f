//! A moment in local time, and how it is written.

use crate::text::opt_text;
use vstd::prelude::*;

verus! {

/// A moment: seconds and nanoseconds since 1970 in UTC, and how many seconds local
/// time is ahead of that.
#[derive(Debug, Clone, Copy, PartialEq, Eq, Structural)]
pub struct Moment {
    pub seconds: i64,
    pub nanos: u32,
    pub offset: i32,
}

/// How capture files write the time in their names: to the minute, without a colon.
pub open spec fn stamp_pattern() -> Seq<char> {
    "%Y-%m-%dT%H%M"@
}

/// A moment as `chrono` formats it in local time by a pattern, if it is one that
/// `chrono` can hold.
pub uninterp spec fn formatted(
    seconds: i64,
    nanos: u32,
    offset: i32,
    pattern: Seq<char>,
) -> Option<Seq<char>>;

/// A moment in local time as `chrono` writes it in RFC 3339, if it is one that
/// `chrono` can hold.
pub uninterp spec fn rfc3339(seconds: i64, nanos: u32, offset: i32) -> Option<Seq<char>>;

/// `chrono::DateTime::format` writes the local time by the pattern. It is a function
/// of the moment and of the pattern, which has to be one that it knows. Nothing
/// comes out where `chrono::DateTime::from_timestamp` or
/// `chrono::FixedOffset::east_opt` refuse the numbers.
#[verifier::external_body]
fn format_moment(now: Moment, pattern: &str) -> (text: Option<String>)
    requires
        pattern@ == stamp_pattern(),
    ensures
        opt_text(text) == formatted(now.seconds, now.nanos, now.offset, pattern@),
{
    let zone = chrono::FixedOffset::east_opt(now.offset)?;
    let moment = chrono::DateTime::from_timestamp(now.seconds, now.nanos)?;
    Some(moment.with_timezone(&zone).format(pattern).to_string())
}

/// `chrono::DateTime::to_rfc3339` writes the local time with its offset. It is a
/// function of the moment. Nothing comes out where
/// `chrono::DateTime::from_timestamp` or `chrono::FixedOffset::east_opt` refuse the
/// numbers.
#[verifier::external_body]
fn write_rfc3339(now: Moment) -> (text: Option<String>)
    ensures
        opt_text(text) == rfc3339(now.seconds, now.nanos, now.offset),
{
    let zone = chrono::FixedOffset::east_opt(now.offset)?;
    let moment = chrono::DateTime::from_timestamp(now.seconds, now.nanos)?;
    Some(moment.with_timezone(&zone).to_rfc3339())
}

/// The local time as capture files write it in their names.
pub open spec fn stamp_of(now: Moment) -> Option<Seq<char>> {
    formatted(now.seconds, now.nanos, now.offset, stamp_pattern())
}

/// The local time as capture files write it in their first line.
pub open spec fn started_of(now: Moment) -> Option<Seq<char>> {
    rfc3339(now.seconds, now.nanos, now.offset)
}

impl Moment {
    /// The local time as capture files write it in their names.
    pub fn stamp(self) -> (text: Option<String>)
        ensures
            opt_text(text) == stamp_of(self),
    {
        format_moment(self, "%Y-%m-%dT%H%M")
    }

    /// The local time as capture files write it in their first line.
    pub fn started(self) -> (text: Option<String>)
        ensures
            opt_text(text) == started_of(self),
    {
        write_rfc3339(self)
    }
}

} // verus!
