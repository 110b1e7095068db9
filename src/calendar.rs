//! Proleptic Gregorian calendar facts and a wall-clock view of an instant.
use chrono::{Datelike, Timelike};
use vstd::prelude::*;

verus! {

/// Gregorian leap rule: divisible by 4, and not by 100 unless also by 400.
pub open spec fn is_leap(year: int) -> bool {
    (year % 4 == 0 && year % 100 != 0) || year % 400 == 0
}

/// Number of days in `month` (1 to 12) of `year`.
pub open spec fn month_length(year: int, month: int) -> int {
    if month == 2 {
        if is_leap(year) { 29 } else { 28 }
    } else if month == 4 || month == 6 || month == 9 || month == 11 {
        30
    } else {
        31
    }
}

/// `(year, month, day)` names a real calendar date.
pub open spec fn is_real_date(year: int, month: int, day: int) -> bool {
    1 <= month <= 12 && 1 <= day <= month_length(year, month)
}

/// Days from 1970-01-01 to the given civil date (negative before it).
pub open spec fn days_from_civil(year: int, month: int, day: int) -> int {
    let y = if month <= 2 { year - 1 } else { year };
    let era = y / 400;
    let yoe = y - era * 400;
    let mp = if month > 2 { month - 3 } else { month + 9 };
    let doy = (153 * mp + 2) / 5 + day - 1;
    let doe = yoe * 365 + yoe / 4 - yoe / 100 + doy;
    era * 146097 + doe - 719468
}

/// An instant as read on a wall clock at a fixed offset from UTC.
///
/// `timestamp` is the instant in seconds since the Unix epoch, `offset` the
/// seconds east of UTC of the clock, and the remaining fields the clock's
/// reading; `weekday` counts from Monday (0) to Sunday (6).
#[derive(Clone, Copy, Debug, PartialEq, Eq, Structural)]
pub struct LocalDateTime {
    pub timestamp: i64,
    pub offset: i32,
    pub year: i32,
    pub month: u32,
    pub day: u32,
    pub hour: u32,
    pub minute: u32,
    pub second: u32,
    pub weekday: u32,
}

impl LocalDateTime {
    /// Days from 1970-01-01 to this reading's date.
    pub open spec fn epoch_day(&self) -> int {
        days_from_civil(self.year as int, self.month as int, self.day as int)
    }

    /// Seconds from 1970-01-01 00:00:00 to this reading, on the same clock.
    pub open spec fn local_seconds(&self) -> int {
        self.epoch_day() * 86400 + self.hour * 3600 + self.minute * 60 + self.second
    }

    /// The fields form one consistent reading of `timestamp` at `offset`.
    pub open spec fn wf(&self) -> bool {
        &&& is_real_date(self.year as int, self.month as int, self.day as int)
        &&& self.hour < 24
        &&& self.minute < 60
        &&& self.second < 60
        &&& self.weekday == (self.epoch_day() + 3) % 7
        &&& -86400 < self.offset < 86400
        &&& self.local_seconds() == self.timestamp + self.offset
    }

    /// Reads the instant `secs` (seconds since the Unix epoch) on a clock
    /// `offset` seconds east of UTC; `None` where that cannot be represented.
    pub fn from_timestamp(secs: i64, offset: i32) -> (r: Option<LocalDateTime>)
        ensures
            r == local_time_of(secs, offset),
            r matches Some(t) ==> t.wf() && t.timestamp == secs && t.offset == offset,
            offset <= -86400 || 86400 <= offset ==> r is None,
    {
        read_clock(secs, offset)
    }
}

/// The reading that chrono gives of an instant on a clock at a fixed offset.
pub uninterp spec fn local_time_of(secs: i64, offset: i32) -> Option<LocalDateTime>;

/// Relies on chrono's `FixedOffset::east_opt` (`None` unless the offset is
/// strictly within one day), `DateTime::from_timestamp` (`None` for an
/// instant out of chrono's range) and `DateTime::with_timezone`, whose
/// `year`, `month`, `day`, `hour`, `minute`, `second` and
/// `weekday().num_days_from_monday()` read the proleptic Gregorian calendar
/// at that offset.
#[verifier::external_body]
fn read_clock(secs: i64, offset: i32) -> (r: Option<LocalDateTime>)
    ensures
        r == local_time_of(secs, offset),
        r matches Some(t) ==> t.wf() && t.timestamp == secs && t.offset == offset,
        offset <= -86400 || 86400 <= offset ==> r is None,
{
    let tz = chrono::FixedOffset::east_opt(offset)?;
    let t = chrono::DateTime::from_timestamp(secs, 0)?.with_timezone(&tz);
    Some(LocalDateTime {
        timestamp: secs,
        offset,
        year: t.year(),
        month: t.month(),
        day: t.day(),
        hour: t.hour(),
        minute: t.minute(),
        second: t.second(),
        weekday: t.weekday().num_days_from_monday(),
    })
}

/// Whether `year` is a leap year of the Gregorian calendar.
pub fn is_leap_year(year: i32) -> (r: bool)
    ensures
        r == is_leap(year as int),
{
    (year % 4 == 0 && year % 100 != 0) || year % 400 == 0
}

/// The last day of `month` in `year`.
pub fn last_day_of_month(year: i32, month: u32) -> (r: u32)
    requires
        1 <= month <= 12,
    ensures
        r == month_length(year as int, month as int),
{
    if month == 2 {
        if is_leap_year(year) { 29 } else { 28 }
    } else if month == 4 || month == 6 || month == 9 || month == 11 {
        30
    } else {
        31
    }
}

} // verus!
