//! Time, as `chrono` tells and shows it.
//!
//! A task keeps its creation instant as a count of seconds since the start
//! of 1970 in UTC. `chrono` decides which counts are instants it can hold,
//! reads the clock, finds the machine's offset from UTC, and writes an
//! instant as a date and time at an offset. Each function here makes one
//! such call and is believed, not proved.

use vstd::prelude::*;

verus! {

/// How a creation instant is shown: day, month, year, then hour and minute.
pub const STAMP_PATTERN: &'static str = "%d/%m/%Y %H:%M";

/// The first second that `chrono` has an instant for: the start of the
/// year 262144 BCE.
pub const FIRST_INSTANT: i64 = -8_334_601_228_800;

/// The last second that `chrono` has an instant for: the end of the year
/// 262142 CE.
pub const LAST_INSTANT: i64 = 8_210_266_876_799;

/// An offset from UTC, in seconds, stays under this on either side: a day.
pub const OFFSET_LIMIT: i32 = 86_400;

/// Whether `chrono` has an instant at this count of seconds.
pub open spec fn instant(seconds: i64) -> bool {
    FIRST_INSTANT <= seconds <= LAST_INSTANT
}

/// Whether a count of seconds can be an offset from UTC.
pub open spec fn offset_in_range(offset: i32) -> bool {
    -OFFSET_LIMIT < offset < OFFSET_LIMIT
}

/// What `chrono` writes for an instant at an offset from UTC, under
/// [`STAMP_PATTERN`]: the date and time that a clock set to that offset
/// shows at that instant.
pub uninterp spec fn stamp(seconds: i64, offset: i32) -> Seq<char>;

/// `DateTime::from_timestamp` with no nanoseconds, asked only whether it
/// returns an instant. It does from the first day of its calendar to the
/// last.
#[verifier::external_body]
pub(crate) fn is_instant(seconds: i64) -> (r: bool)
    ensures
        r == instant(seconds),
{
    chrono::DateTime::from_timestamp(seconds, 0).is_some()
}

/// `Utc::now`, as whole seconds: the clock's reading. Nothing is said of
/// its value but that it is an instant, since it was taken from one.
/// `chrono` panics where the system clock stands before 1970.
#[verifier::external_body]
pub(crate) fn now_seconds() -> (r: i64)
    ensures
        instant(r),
{
    chrono::Utc::now().timestamp()
}

/// `DateTime::offset` of the instant moved to the `Local` time zone: how
/// many seconds the machine's local time is ahead of UTC at that instant.
/// It depends on the zone the machine is set to, so nothing is said of it
/// but that it is an offset. `chrono` panics where the machine's time zone
/// data gives it no offset for the instant.
#[verifier::external_body]
pub(crate) fn local_offset(seconds: i64) -> (r: i32)
    requires
        instant(seconds),
    ensures
        offset_in_range(r),
{
    match chrono::DateTime::from_timestamp(seconds, 0) {
        Some(at) => at.with_timezone(&chrono::Local).offset().local_minus_utc(),
        None => 0,
    }
}

/// `DateTime::format` on the instant moved to the time zone that
/// `FixedOffset::east_opt` makes of the offset. The pattern is fixed to
/// [`STAMP_PATTERN`], which `chrono` can always write and which shows
/// nothing but the date and time, so the text is the one named by
/// [`stamp`].
#[verifier::external_body]
pub(crate) fn stamp_at(seconds: i64, offset: i32, pattern: &str) -> (r: String)
    requires
        instant(seconds),
        offset_in_range(offset),
        pattern@ == STAMP_PATTERN@,
    ensures
        r@ == stamp(seconds, offset),
{
    match (chrono::DateTime::from_timestamp(seconds, 0), chrono::FixedOffset::east_opt(offset)) {
        (Some(at), Some(zone)) => at.with_timezone(&zone).format(pattern).to_string(),
        _ => String::new(),
    }
}

} // verus!
