//! The recurrence evaluator and the selection of due schedules for one tick.
use crate::calendar::{
    is_leap, is_real_date, last_day_of_month, local_time_of, month_length, LocalDateTime,
};
use crate::schedule::{Repeat, ScheduleQueryResult};
use vstd::prelude::*;

verus! {

/// Whether a recurrence is still live at `now`, whatever the time of day.
pub open spec fn valid_at(repeat: Repeat, schedule_time: LocalDateTime, now: LocalDateTime) -> bool {
    match repeat {
        Repeat::Once => schedule_time.timestamp >= now.timestamp,
        Repeat::Daily => true,
        Repeat::Weekly => true,
        Repeat::Monthly => schedule_time.day <= month_length(now.year as int, now.month as int),
        Repeat::Yearly => is_real_date(
            now.year as int,
            schedule_time.month as int,
            schedule_time.day as int,
        ),
    }
}

/// Hour, minute and second agree.
pub open spec fn same_time_of_day(a: LocalDateTime, b: LocalDateTime) -> bool {
    a.hour == b.hour && a.minute == b.minute && a.second == b.second
}

/// Whether the fields that `repeat` looks at agree between the two readings.
pub open spec fn time_matches_at(repeat: Repeat, schedule_time: LocalDateTime, now: LocalDateTime) -> bool {
    same_time_of_day(schedule_time, now) && match repeat {
        Repeat::Once => schedule_time.timestamp == now.timestamp,
        Repeat::Daily => true,
        Repeat::Weekly => schedule_time.weekday == now.weekday,
        Repeat::Monthly => schedule_time.day == now.day,
        Repeat::Yearly => schedule_time.month == now.month && schedule_time.day == now.day,
    }
}

/// A schedule whose anchor reads `schedule_time` on the clock of `now` is due at `now`.
pub open spec fn due_at(repeat: Repeat, schedule_time: LocalDateTime, now: LocalDateTime) -> bool {
    valid_at(repeat, schedule_time, now) && time_matches_at(repeat, schedule_time, now)
}

/// A schedule is to be notified at `now`: it asks for reminders, and its
/// anchor, read on the clock of `now`, is due.
pub open spec fn notify_at(schedule: ScheduleQueryResult, now: LocalDateTime) -> bool {
    schedule.remind && match local_time_of(schedule.date, now.offset) {
        Some(schedule_time) => due_at(schedule.repeat, schedule_time, now),
        None => false,
    }
}

/// The schedules of `schedules` to be notified at `now`, in their order.
pub open spec fn due_set(schedules: Seq<ScheduleQueryResult>, now: LocalDateTime) -> Seq<ScheduleQueryResult> {
    schedules.filter(|s: ScheduleQueryResult| notify_at(s, now))
}

/// Whether day `schedule_day` exists in the month of `now`.
pub fn is_valid_monthly_date(schedule_day: u32, now: &LocalDateTime) -> (r: bool)
    requires
        now.wf(),
    ensures
        r == (schedule_day <= month_length(now.year as int, now.month as int)),
{
    let last_day = last_day_of_month(now.year, now.month);
    schedule_day <= last_day
}

/// Whether `schedule_month`/`schedule_day` is a real date in the year of `now`.
pub fn is_valid_yearly_date(schedule_month: u32, schedule_day: u32, now: &LocalDateTime) -> (r: bool)
    ensures
        r == is_real_date(now.year as int, schedule_month as int, schedule_day as int),
{
    if schedule_month < 1 || schedule_month > 12 || schedule_day < 1 {
        return false;
    }
    schedule_day <= last_day_of_month(now.year, schedule_month)
}

/// The validity gate: whether the recurrence is still live at `now`.
pub fn is_schedule_valid(repeat: Repeat, schedule_time: &LocalDateTime, now: &LocalDateTime) -> (r: bool)
    requires
        now.wf(),
    ensures
        r == valid_at(repeat, *schedule_time, *now),
{
    match repeat {
        Repeat::Once => schedule_time.timestamp >= now.timestamp,
        Repeat::Daily => true,
        Repeat::Weekly => true,
        Repeat::Monthly => is_valid_monthly_date(schedule_time.day, now),
        Repeat::Yearly => is_valid_yearly_date(schedule_time.month, schedule_time.day, now),
    }
}

/// Whether the clock fields that `repeat` looks at agree with `now`.
pub fn matches_notification_time(
    repeat: Repeat,
    schedule_time: &LocalDateTime,
    now: &LocalDateTime,
) -> (r: bool)
    ensures
        r == time_matches_at(repeat, *schedule_time, *now),
{
    let time_matches = schedule_time.hour == now.hour && schedule_time.minute == now.minute
        && schedule_time.second == now.second;
    let kind_matches = match repeat {
        Repeat::Once => schedule_time.timestamp == now.timestamp,
        Repeat::Daily => true,
        Repeat::Weekly => schedule_time.weekday == now.weekday,
        Repeat::Monthly => schedule_time.day == now.day,
        Repeat::Yearly => schedule_time.month == now.month && schedule_time.day == now.day,
    };
    time_matches && kind_matches
}

/// The recurrence evaluator: whether a schedule of kind `repeat`, whose anchor
/// reads `schedule_time` on the clock of `now`, is due at `now`.
pub fn is_due(repeat: Repeat, schedule_time: &LocalDateTime, now: &LocalDateTime) -> (r: bool)
    requires
        now.wf(),
    ensures
        r == due_at(repeat, *schedule_time, *now),
{
    if !is_schedule_valid(repeat, schedule_time, now) {
        return false;
    }
    matches_notification_time(repeat, schedule_time, now)
}

/// Whether `schedule` is to be notified at `now`.
pub fn should_notify(schedule: &ScheduleQueryResult, now: &LocalDateTime) -> (r: bool)
    requires
        now.wf(),
    ensures
        r == notify_at(*schedule, *now),
{
    if !schedule.remind {
        return false;
    }
    match LocalDateTime::from_timestamp(schedule.date, now.offset) {
        Some(schedule_time) => is_due(schedule.repeat, &schedule_time, now),
        None => false,
    }
}

/// The schedules to be notified at `now`, in the order of `schedules`.
pub fn due_schedules(schedules: &Vec<ScheduleQueryResult>, now: &LocalDateTime) -> (r: Vec<
    ScheduleQueryResult,
>)
    requires
        now.wf(),
    ensures
        r@ == due_set(schedules@, *now),
{
    let mut due: Vec<ScheduleQueryResult> = Vec::new();
    let mut i: usize = 0;
    while i < schedules.len()
        invariant
            now.wf(),
            i <= schedules@.len(),
            due@ == due_set(schedules@.subrange(0, i as int), *now),
        decreases schedules@.len() - i,
    {
        let s = &schedules[i];
        proof {
            let pre = schedules@.subrange(0, i as int);
            let next = schedules@.subrange(0, i as int + 1);
            assert(next.drop_last() =~= pre);
            assert(next.last() == *s);
            reveal_with_fuel(Seq::filter, 1);
        }
        if should_notify(s, now) {
            due.push(s.clone());
        }
        i += 1;
    }
    assert(schedules@.subrange(0, schedules@.len() as int) =~= schedules@);
    due
}

/// One tick's batch: the due schedules of `schedules` at `now`, or `None`
/// where none is due and nothing is to be delivered.
pub fn due_batch(schedules: &Vec<ScheduleQueryResult>, now: &LocalDateTime) -> (r: Option<
    Vec<ScheduleQueryResult>,
>)
    requires
        now.wf(),
    ensures
        due_set(schedules@, *now).len() == 0 <==> r is None,
        r matches Some(batch) ==> batch@ == due_set(schedules@, *now),
{
    let due = due_schedules(schedules, now);
    if due.len() == 0 {
        None
    } else {
        Some(due)
    }
}

/// A one-shot schedule is due only at its anchor instant, and never at any
/// later instant, even one whose time of day coincides.
pub proof fn lemma_once_expiry(schedule_time: LocalDateTime, now: LocalDateTime)
    ensures
        due_at(Repeat::Once, schedule_time, now) ==> now.timestamp == schedule_time.timestamp,
        now.timestamp > schedule_time.timestamp ==> !due_at(Repeat::Once, schedule_time, now),
{
}

/// Two well-formed readings of one instant on one clock agree on the time of day.
proof fn lemma_same_instant_same_time_of_day(a: LocalDateTime, b: LocalDateTime)
    requires
        a.wf(),
        b.wf(),
        a.offset == b.offset,
        a.timestamp == b.timestamp,
    ensures
        same_time_of_day(a, b),
{
    let x = a.hour * 3600 + a.minute * 60 + a.second;
    let y = b.hour * 3600 + b.minute * 60 + b.second;
    assert(0 <= x < 86400 && 0 <= y < 86400) by (nonlinear_arith)
        requires
            a.hour < 24 && a.minute < 60 && a.second < 60,
            b.hour < 24 && b.minute < 60 && b.second < 60,
            x == a.hour * 3600 + a.minute * 60 + a.second,
            y == b.hour * 3600 + b.minute * 60 + b.second,
    ;
    let da = a.epoch_day();
    let db = b.epoch_day();
    assert(da * 86400 + x == db * 86400 + y);
    assert(x == y) by (nonlinear_arith)
        requires
            da * 86400 + x == db * 86400 + y,
            0 <= x < 86400,
            0 <= y < 86400,
    ;
    assert(a.hour == b.hour && a.minute == b.minute && a.second == b.second) by (nonlinear_arith)
        requires
            a.hour * 3600 + a.minute * 60 + a.second == b.hour * 3600 + b.minute * 60 + b.second,
            a.minute < 60 && a.second < 60,
            b.minute < 60 && b.second < 60,
            a.hour >= 0 && b.hour >= 0 && a.minute >= 0 && b.minute >= 0,
            a.second >= 0 && b.second >= 0,
    ;
}

/// Read on the clock of `now`, a one-shot schedule is due exactly at its
/// anchor instant.
pub proof fn lemma_once_due_iff_same_instant(schedule_time: LocalDateTime, now: LocalDateTime)
    requires
        schedule_time.wf(),
        now.wf(),
        schedule_time.offset == now.offset,
    ensures
        due_at(Repeat::Once, schedule_time, now) <==> schedule_time.timestamp == now.timestamp,
{
    if schedule_time.timestamp == now.timestamp {
        lemma_same_instant_same_time_of_day(schedule_time, now);
    }
}

/// A monthly schedule anchored on day 31 is never due in a month of 28, 29 or
/// 30 days, at any time of day.
pub proof fn lemma_monthly_short_month(schedule_time: LocalDateTime, now: LocalDateTime)
    requires
        schedule_time.day == 31,
        now.wf(),
        month_length(now.year as int, now.month as int) < 31,
    ensures
        !due_at(Repeat::Monthly, schedule_time, now),
{
}

/// A yearly schedule anchored on February 29 is due exactly when `now` lies
/// in a leap year, on February 29, at the anchor's time of day; in any other
/// year it is due on no day.
pub proof fn lemma_yearly_leap_day(schedule_time: LocalDateTime, now: LocalDateTime)
    requires
        schedule_time.month == 2,
        schedule_time.day == 29,
    ensures
        due_at(Repeat::Yearly, schedule_time, now) <==> (is_leap(now.year as int) && now.month == 2
            && now.day == 29 && same_time_of_day(schedule_time, now)),
        !is_leap(now.year as int) ==> !due_at(Repeat::Yearly, schedule_time, now),
{
}

/// A weekly schedule anchored on a Monday at 09:00:00 is due exactly when
/// `now` is a Monday at 09:00:00, whatever the date.
pub proof fn lemma_weekly_alignment(schedule_time: LocalDateTime, now: LocalDateTime)
    requires
        schedule_time.weekday == 0,
        schedule_time.hour == 9,
        schedule_time.minute == 0,
        schedule_time.second == 0,
    ensures
        due_at(Repeat::Weekly, schedule_time, now) <==> (now.weekday == 0 && now.hour == 9
            && now.minute == 0 && now.second == 0),
{
}

/// A schedule that does not ask for reminders is never part of a tick's due
/// set, however its recurrence compares with `now`; every member of the due
/// set asks for reminders.
pub proof fn lemma_remind_gate(schedules: Seq<ScheduleQueryResult>, now: LocalDateTime)
    ensures
        forall|i: int|
            0 <= i < due_set(schedules, now).len() ==> #[trigger] due_set(schedules, now)[i].remind,
        forall|s: ScheduleQueryResult| !s.remind ==> !#[trigger] due_set(schedules, now).contains(s),
{
    let pred = |s: ScheduleQueryResult| notify_at(s, now);
    assert forall|i: int| 0 <= i < due_set(schedules, now).len() implies #[trigger] due_set(
        schedules,
        now,
    )[i].remind by {
        schedules.lemma_filter_pred(pred, i);
    }
    assert forall|s: ScheduleQueryResult| !s.remind implies !#[trigger] due_set(
        schedules,
        now,
    ).contains(s) by {
        if due_set(schedules, now).contains(s) {
            let i = choose|i: int| 0 <= i < due_set(schedules, now).len() && due_set(schedules, now)[i] == s;
            schedules.lemma_filter_pred(pred, i);
        }
    }
}

} // verus!
