//! Date windows for listing schedules by month or by day, and the selection
//! of schedules whose anchor falls in such a window.
use crate::calendar::{is_real_date, last_day_of_month, month_length};
use crate::schedule::ScheduleQueryResult;
use vstd::prelude::*;

verus! {

/// The month after `(year, month)`.
pub open spec fn month_after(year: int, month: int) -> (int, int) {
    if month == 12 {
        (year + 1, 1)
    } else {
        (year, month + 1)
    }
}

/// The day after `(year, month, day)`.
pub open spec fn day_after(year: int, month: int, day: int) -> (int, int, int) {
    if day < month_length(year, month) {
        (year, month, day + 1)
    } else if month < 12 {
        (year, month + 1, 1)
    } else {
        (year + 1, 1, 1)
    }
}

/// The anchor of `s` lies in `[start, end)`.
pub open spec fn anchored_between(s: ScheduleQueryResult, start: i64, end: i64) -> bool {
    start <= s.date && s.date < end
}

/// The month `(year, month)` and the month after it, whose first days bound
/// the listing of one month; `None` for a month outside 1 to 12 or a year
/// whose successor does not fit an `i32`.
pub fn month_window(year: u32, month: u32) -> (r: Option<((i32, u32), (i32, u32))>)
    ensures
        r is Some <==> (1 <= month <= 12 && year < i32::MAX),
        r matches Some((start, end)) ==> start.0 == year && start.1 == month && end.0
            == month_after(year as int, month as int).0 && end.1 == month_after(
            year as int,
            month as int,
        ).1,
{
    if month < 1 || month > 12 || year >= i32::MAX as u32 {
        return None;
    }
    let y = year as i32;
    if month == 12 {
        Some(((y, month), (y + 1, 1)))
    } else {
        Some(((y, month), (y, month + 1)))
    }
}

/// The day after a real date; the two bound the listing of one day.
pub fn next_day(year: i32, month: u32, day: u32) -> (r: (i32, u32, u32))
    requires
        is_real_date(year as int, month as int, day as int),
        year < i32::MAX,
    ensures
        r.0 == day_after(year as int, month as int, day as int).0,
        r.1 == day_after(year as int, month as int, day as int).1,
        r.2 == day_after(year as int, month as int, day as int).2,
        is_real_date(r.0 as int, r.1 as int, r.2 as int),
{
    if day < last_day_of_month(year, month) {
        (year, month, day + 1)
    } else if month < 12 {
        (year, month + 1, 1)
    } else {
        (year + 1, 1, 1)
    }
}

/// The schedules of `schedules` anchored in `[start, end)`, in their order.
pub fn schedules_between(schedules: &Vec<ScheduleQueryResult>, start: i64, end: i64) -> (r: Vec<
    ScheduleQueryResult,
>)
    ensures
        r@ == schedules@.filter(|s: ScheduleQueryResult| anchored_between(s, start, end)),
{
    let mut found: Vec<ScheduleQueryResult> = Vec::new();
    let mut i: usize = 0;
    while i < schedules.len()
        invariant
            i <= schedules@.len(),
            found@ == schedules@.subrange(0, i as int).filter(
                |s: ScheduleQueryResult| anchored_between(s, start, end),
            ),
        decreases schedules@.len() - i,
    {
        let s = &schedules[i];
        proof {
            let next = schedules@.subrange(0, i as int + 1);
            assert(next.drop_last() =~= schedules@.subrange(0, i as int));
            assert(next.last() == *s);
            reveal_with_fuel(Seq::filter, 1);
        }
        if start <= s.date && s.date < end {
            found.push(s.clone());
        }
        i += 1;
    }
    assert(schedules@.subrange(0, schedules@.len() as int) =~= schedules@);
    found
}

} // verus!
