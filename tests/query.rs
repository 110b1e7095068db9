use schedule_notify::query::{month_window, next_day, schedules_between};
use schedule_notify::schedule::{Repeat, ScheduleQueryResult};

fn schedule(id: i32, date: i64) -> ScheduleQueryResult {
    ScheduleQueryResult { id, content: None, date, remind: false, repeat: Repeat::Once }
}

#[test]
fn month_window_within_year() {
    assert_eq!(month_window(2024, 5), Some(((2024, 5), (2024, 6))));
}

#[test]
fn month_window_rolls_into_next_year() {
    assert_eq!(month_window(2024, 12), Some(((2024, 12), (2025, 1))));
}

#[test]
fn month_window_rejects_bad_month() {
    assert_eq!(month_window(2024, 0), None);
    assert_eq!(month_window(2024, 13), None);
    assert_eq!(month_window(u32::MAX, 3), None);
}

#[test]
fn next_day_inside_month() {
    assert_eq!(next_day(2024, 2, 28), (2024, 2, 29));
    assert_eq!(next_day(2023, 2, 27), (2023, 2, 28));
}

#[test]
fn next_day_at_month_and_year_end() {
    assert_eq!(next_day(2023, 2, 28), (2023, 3, 1));
    assert_eq!(next_day(2024, 4, 30), (2024, 5, 1));
    assert_eq!(next_day(2024, 12, 31), (2025, 1, 1));
}

#[test]
fn schedules_between_is_half_open_and_ordered() {
    let all = vec![schedule(1, 100), schedule(2, 99), schedule(3, 199), schedule(4, 200), schedule(5, 150)];
    let ids: Vec<i32> = schedules_between(&all, 100, 200).iter().map(|s| s.id).collect();
    assert_eq!(ids, vec![1, 3, 5]);
    assert!(schedules_between(&all, 200, 100).is_empty());
}
