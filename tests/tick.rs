use chrono::TimeZone;
use schedule_notify::calendar::LocalDateTime;
use schedule_notify::errors::AppError;
use schedule_notify::notify::{due_batch, due_schedules};
use schedule_notify::schedule::{Repeat, ScheduleQueryResult};
use schedule_notify::state::ScheduleState;

fn utc(y: i32, mo: u32, d: u32, h: u32, mi: u32, s: u32) -> i64 {
    chrono::Utc.with_ymd_and_hms(y, mo, d, h, mi, s).unwrap().timestamp()
}

fn now_at(ts: i64) -> LocalDateTime {
    LocalDateTime::from_timestamp(ts, 0).unwrap()
}

fn schedule(id: i32, date: i64, remind: bool, repeat: Repeat) -> ScheduleQueryResult {
    ScheduleQueryResult { id, content: Some(format!("item {}", id)), date, remind, repeat }
}

fn ids(v: &[ScheduleQueryResult]) -> Vec<i32> {
    v.iter().map(|s| s.id).collect()
}

#[test]
fn daily_schedule_end_to_end() {
    let mut state = ScheduleState::new();
    let daily = schedule(1, utc(2024, 3, 10, 14, 30, 0), true, Repeat::Daily);
    assert!(state.refresh(Ok(vec![daily])).is_ok());
    let snap = state.get_schedules();
    let batch = due_batch(&snap, &now_at(utc(2025, 11, 2, 14, 30, 0))).unwrap();
    assert_eq!(ids(&batch), vec![1]);
    assert!(due_batch(&snap, &now_at(utc(2025, 11, 2, 14, 30, 1))).is_none());
}

#[test]
fn expired_once_excluded_future_once_needs_full_date() {
    let now = utc(2024, 8, 15, 11, 0, 0);
    let yesterday = schedule(1, now - 86400, true, Repeat::Once);
    let tomorrow = schedule(2, now + 86400, true, Repeat::Once);
    let exact = schedule(3, now, true, Repeat::Once);
    let snap = vec![yesterday.clone(), tomorrow.clone()];
    assert!(due_schedules(&snap, &now_at(now)).is_empty());
    assert!(due_batch(&snap, &now_at(now)).is_none());
    let later = due_schedules(&snap, &now_at(now + 86400));
    assert_eq!(ids(&later), vec![2]);
    let with_exact = vec![yesterday, exact, tomorrow];
    assert_eq!(ids(&due_schedules(&with_exact, &now_at(now))), vec![3]);
}

#[test]
fn due_batch_keeps_snapshot_order_and_remind_gate() {
    let t = utc(2024, 1, 1, 9, 0, 0);
    let snap = vec![
        schedule(5, t, true, Repeat::Weekly),
        schedule(6, t, false, Repeat::Daily),
        schedule(7, t - 86400, true, Repeat::Daily),
        schedule(8, t + 3600, true, Repeat::Daily),
        schedule(9, t, true, Repeat::Once),
    ];
    let batch = due_batch(&snap, &now_at(t)).unwrap();
    assert_eq!(ids(&batch), vec![5, 7, 9]);
    assert_eq!(batch[0].content, Some("item 5".to_string()));
    assert!(batch.iter().all(|s| s.remind));
}

#[test]
fn empty_snapshot_gives_no_batch() {
    let snap: Vec<ScheduleQueryResult> = Vec::new();
    assert!(due_batch(&snap, &now_at(0)).is_none());
    assert!(due_schedules(&snap, &now_at(0)).is_empty());
}

#[test]
fn new_cache_is_empty() {
    assert!(ScheduleState::new().get_schedules().is_empty());
}

#[test]
fn refresh_replaces_contents_wholesale() {
    let mut state = ScheduleState::new();
    state.refresh(Ok(vec![schedule(1, 0, true, Repeat::Daily), schedule(2, 0, true, Repeat::Daily)])).unwrap();
    let before = state.get_schedules();
    state.refresh(Ok(vec![schedule(3, 0, false, Repeat::Once)])).unwrap();
    assert_eq!(ids(&before), vec![1, 2]);
    assert_eq!(ids(&state.get_schedules()), vec![3]);
}

#[test]
fn failed_refresh_keeps_stale_contents() {
    let mut state = ScheduleState::new();
    state.refresh(Ok(vec![schedule(4, 0, true, Repeat::Yearly)])).unwrap();
    let r = state.refresh(Err(AppError::from(anyhow::Error::msg("store unavailable"))));
    match r {
        Err(AppError::Unexpected(e)) => assert_eq!(e.to_string(), "store unavailable"),
        _ => panic!("expected the store error back"),
    }
    assert_eq!(ids(&state.get_schedules()), vec![4]);
    assert!(matches!(state.refresh(Err(AppError::RowNotFound)), Err(AppError::RowNotFound)));
    assert_eq!(ids(&state.get_schedules()), vec![4]);
}
