use workday_timer::clock::{day_key_at, Moment};
use workday_timer::lap::Lap;
use workday_timer::ledger::DayRecord;
use workday_timer::session::{get_current_lap_duration, CurrentSession, PauseOrigin};
use workday_timer::snapshot::{PersistedSessionState, PersistedState};
use workday_timer::tracker::{AppState, SignalOutcome, StopOutcome, TrackerError};

/// 2015-05-15 00:00:00 UTC.
const DAY: u64 = 1431648000;

fn at(seconds: u64) -> Moment {
    Moment { monotonic: 100 + seconds, epoch: DAY + seconds }
}

fn started() -> AppState {
    let mut st = AppState::new();
    assert_eq!(st.start_day(at(0)).unwrap(), "2015-05-15");
    st
}

/// Status queries once a second, as the display does, up to `to`.
fn tick(st: &mut AppState, from: u64, to: u64) {
    for s in from..=to {
        st.get_current_status(at(s));
    }
}

fn accumulated(st: &AppState) -> u64 {
    st.current_session.as_ref().unwrap().accumulated_seconds
}

fn origin(st: &AppState) -> Option<PauseOrigin> {
    st.current_session.as_ref().unwrap().pause_origin
}

#[test]
fn new_state_has_nothing() {
    let mut st = AppState::new();
    assert!(st.current_session.is_none());
    assert!(st.day_records.is_empty());
    assert!(st.get_current_status(at(0)).is_none());
    assert!(st.get_current_day_laps().is_empty());
}

#[test]
fn day_key_is_utc_date() {
    assert_eq!(day_key_at(0), "1970-01-01");
    assert_eq!(day_key_at(DAY), "2015-05-15");
    assert_eq!(day_key_at(DAY + 86399), "2015-05-15");
    assert_eq!(day_key_at(DAY + 86400), "2015-05-16");
}

#[test]
fn start_day_opens_one_lap() {
    let st = started();
    let laps = st.get_current_day_laps();
    assert_eq!(laps, vec![Lap { start_time: DAY, end_time: None, duration: None }]);
    assert_eq!(st.day_records.len(), 1);
    assert!(st.day_records[0].is_active);
    assert_eq!(origin(&st), None);
}

#[test]
fn start_day_twice_fails() {
    let mut st = started();
    assert_eq!(st.start_day(at(5)), Err(TrackerError::AlreadyActive));
    assert_eq!(st.get_current_day_laps().len(), 1);
}

#[test]
fn start_day_again_keeps_ended_record() {
    let mut st = started();
    tick(&mut st, 1, 4);
    st.end_day(at(4)).unwrap();
    st.start_day(at(10)).unwrap();
    assert_eq!(st.day_records.len(), 1);
    assert!(st.day_records[0].is_active);
    assert_eq!(
        st.get_current_day_laps(),
        vec![
            Lap { start_time: DAY, end_time: Some(DAY + 4), duration: Some(4) },
            Lap { start_time: DAY + 10, end_time: None, duration: None },
        ]
    );
    tick(&mut st, 11, 12);
    let rec = st.end_day(at(12)).unwrap();
    assert_eq!(rec.total_duration, 6);
}

#[test]
fn start_day_closes_a_lap_left_running() {
    let mut st = AppState::restore(saved_session("2015-05-14", 9), at(100)).unwrap();
    assert!(st.current_session.is_none());
    st.start_day(at(200)).unwrap();
    assert_eq!(
        st.get_current_day_laps(),
        vec![
            Lap { start_time: DAY, end_time: Some(DAY + 200), duration: Some(0) },
            Lap { start_time: DAY + 200, end_time: None, duration: None },
        ]
    );
}

#[test]
fn scenario_ten_seconds_then_end() {
    let mut st = started();
    tick(&mut st, 1, 10);
    let rec = st.end_day(at(10)).unwrap();
    assert_eq!(rec.date, "2015-05-15");
    assert_eq!(rec.laps.len(), 1);
    assert_eq!(rec.laps[0].duration, Some(10));
    assert_eq!(rec.laps[0].end_time, Some(DAY + 10));
    assert_eq!(rec.total_duration, 10);
    assert!(!rec.is_active);
    assert!(st.current_session.is_none());
    assert!(!st.day_records[0].is_active);
}

#[test]
fn end_day_after_untracked_wait_counts_nothing() {
    let mut st = started();
    let rec = st.end_day(at(10)).unwrap();
    assert_eq!(rec.laps[0].duration, Some(0));
    assert_eq!(rec.total_duration, 0);
}

#[test]
fn end_day_sums_all_laps() {
    let mut st = started();
    tick(&mut st, 1, 4);
    st.add_lap(at(4)).unwrap();
    tick(&mut st, 5, 10);
    let rec = st.end_day(at(10)).unwrap();
    assert_eq!(rec.laps.len(), 2);
    assert_eq!(rec.laps[0].duration, Some(4));
    assert_eq!(rec.laps[1].duration, Some(6));
    assert_eq!(rec.total_duration, 10);
}

#[test]
fn end_day_without_session_fails() {
    let mut st = AppState::new();
    assert!(matches!(st.end_day(at(0)), Err(TrackerError::NoSession)));
}

#[test]
fn end_day_without_record_fails() {
    let mut st = AppState::new();
    st.current_session = Some(CurrentSession {
        start_time: 0,
        day_key: "2015-05-15".to_string(),
        current_lap_start: 0,
        current_lap_start_timestamp: DAY,
        accumulated_seconds: 0,
        last_activity_time: 0,
        pause_origin: None,
    });
    assert!(matches!(st.end_day(at(0)), Err(TrackerError::RecordNotFound)));
    assert!(st.current_session.is_none());
}

#[test]
fn scenario_lock_then_unlock() {
    let mut st = started();
    assert_eq!(st.handle_screen_lock(at(0)), SignalOutcome::Paused);
    assert_eq!(origin(&st), Some(PauseOrigin::System));
    assert_eq!(st.handle_screen_unlock(at(0)), SignalOutcome::Resumed);
    let laps = st.get_current_day_laps();
    assert_eq!(laps.len(), 2);
    assert_eq!(laps[0], Lap { start_time: DAY, end_time: Some(DAY), duration: Some(0) });
    assert_eq!(laps[1], Lap { start_time: DAY, end_time: None, duration: None });
    assert_eq!(origin(&st), None);
}

#[test]
fn sleep_and_wake_act_as_lock_and_unlock() {
    let mut st = started();
    tick(&mut st, 1, 3);
    assert_eq!(st.handle_system_sleep(at(3)), SignalOutcome::Paused);
    assert_eq!(st.handle_system_wake(at(60)), SignalOutcome::Resumed);
    let laps = st.get_current_day_laps();
    assert_eq!(laps[0].duration, Some(3));
    assert_eq!(laps[1].start_time, DAY + 60);
    assert_eq!(accumulated(&st), 0);
}

#[test]
fn signals_without_session_do_nothing() {
    let mut st = AppState::new();
    assert_eq!(st.handle_screen_lock(at(0)), SignalOutcome::NoSession);
    assert_eq!(st.handle_screen_unlock(at(0)), SignalOutcome::NoSession);
    assert_eq!(st.handle_system_sleep(at(0)), SignalOutcome::NoSession);
    assert_eq!(st.handle_system_wake(at(0)), SignalOutcome::NoSession);
    assert!(st.day_records.is_empty());
}

#[test]
fn unlock_while_running_changes_nothing() {
    let mut st = started();
    tick(&mut st, 1, 2);
    assert_eq!(st.handle_screen_unlock(at(2)), SignalOutcome::AlreadyRunning);
    assert_eq!(st.get_current_day_laps().len(), 1);
    assert_eq!(accumulated(&st), 2);
}

#[test]
fn second_lock_keeps_closed_lap() {
    let mut st = started();
    tick(&mut st, 1, 4);
    st.handle_screen_lock(at(4));
    st.handle_screen_lock(at(30));
    let laps = st.get_current_day_laps();
    assert_eq!(laps, vec![Lap { start_time: DAY, end_time: Some(DAY + 4), duration: Some(4) }]);
}

#[test]
fn scenario_user_stop_then_unlock() {
    let mut st = started();
    tick(&mut st, 1, 5);
    assert_eq!(st.stop_lap(at(5)), Ok(StopOutcome::Closed));
    let laps = st.get_current_day_laps();
    assert_eq!(laps, vec![Lap { start_time: DAY, end_time: Some(DAY + 5), duration: Some(5) }]);
    assert_eq!(origin(&st), Some(PauseOrigin::User));
    assert_eq!(st.handle_screen_unlock(at(6)), SignalOutcome::UserPaused);
    assert_eq!(st.get_current_day_laps().len(), 1);
    assert_eq!(origin(&st), Some(PauseOrigin::User));
}

#[test]
fn user_pause_survives_wake_until_add_lap() {
    let mut st = started();
    tick(&mut st, 1, 4);
    st.stop_lap(at(4)).unwrap();
    assert_eq!(st.handle_system_wake(at(8)), SignalOutcome::UserPaused);
    assert_eq!(origin(&st), Some(PauseOrigin::User));
    st.add_lap(at(9)).unwrap();
    assert_eq!(origin(&st), None);
    let laps = st.get_current_day_laps();
    assert_eq!(laps.len(), 2);
    assert_eq!(laps[1], Lap { start_time: DAY + 9, end_time: None, duration: None });
}

#[test]
fn stop_lap_at_one_second_discards() {
    let mut st = started();
    tick(&mut st, 1, 1);
    assert_eq!(st.stop_lap(at(1)), Ok(StopOutcome::Discarded));
    assert!(st.get_current_day_laps().is_empty());
    assert_eq!(accumulated(&st), 0);
    assert_eq!(origin(&st), Some(PauseOrigin::User));
}

#[test]
fn stop_lap_at_three_seconds_closes() {
    let mut st = started();
    tick(&mut st, 1, 3);
    assert_eq!(st.stop_lap(at(3)), Ok(StopOutcome::Closed));
    let laps = st.get_current_day_laps();
    assert_eq!(laps, vec![Lap { start_time: DAY, end_time: Some(DAY + 3), duration: Some(3) }]);
    assert_eq!(accumulated(&st), 3);
}

#[test]
fn stop_lap_errors() {
    let mut st = AppState::new();
    assert_eq!(st.stop_lap(at(0)), Err(TrackerError::NoSession));
    let mut st = started();
    tick(&mut st, 1, 4);
    st.stop_lap(at(4)).unwrap();
    assert_eq!(st.stop_lap(at(5)), Err(TrackerError::AlreadyPaused));
}

#[test]
fn add_lap_without_session_fails() {
    let mut st = AppState::new();
    assert_eq!(st.add_lap(at(0)), Err(TrackerError::NoSession));
}

#[test]
fn add_lap_drops_a_lap_of_one_second() {
    let mut st = started();
    tick(&mut st, 1, 1);
    st.add_lap(at(1)).unwrap();
    assert_eq!(st.get_current_day_laps(), vec![Lap { start_time: DAY + 1, end_time: None, duration: None }]);
}

#[test]
fn add_lap_closes_a_lap_of_two_seconds() {
    let mut st = started();
    tick(&mut st, 1, 2);
    st.add_lap(at(2)).unwrap();
    let laps = st.get_current_day_laps();
    assert_eq!(laps[0], Lap { start_time: DAY, end_time: Some(DAY + 2), duration: Some(2) });
    assert_eq!(laps[1], Lap { start_time: DAY + 2, end_time: None, duration: None });
    assert_eq!(accumulated(&st), 0);
}

#[test]
fn status_while_running_and_paused() {
    let mut st = started();
    tick(&mut st, 1, 4);
    st.add_lap(at(4)).unwrap();
    tick(&mut st, 5, 6);
    let status = st.get_current_status(at(7)).unwrap();
    assert_eq!(status.day_key, "2015-05-15");
    assert_eq!(status.current_lap_duration, 3);
    assert_eq!(status.total_session_duration, 7);
    assert!(status.is_active);
    st.handle_screen_lock(at(7));
    let status = st.get_current_status(at(20)).unwrap();
    assert_eq!(status.current_lap_duration, 0);
    assert_eq!(status.total_session_duration, 7);
    assert!(!status.is_active);
}

#[test]
fn status_twice_at_same_moment_is_stable() {
    let mut st = started();
    tick(&mut st, 1, 3);
    let a = st.get_current_status(at(4)).unwrap();
    let acc = accumulated(&st);
    let b = st.get_current_status(at(4)).unwrap();
    assert_eq!(accumulated(&st), acc);
    assert_eq!(a.current_lap_duration, b.current_lap_duration);
    assert_eq!(a.total_session_duration, b.total_session_duration);
    assert_eq!(b.current_lap_duration, 4);
}

#[test]
fn gap_beyond_threshold_is_not_counted() {
    let mut st = started();
    tick(&mut st, 1, 2);
    let status = st.get_current_status(at(2 + 5 + 1)).unwrap();
    assert_eq!(status.current_lap_duration, 2);
    let status = st.get_current_status(at(9)).unwrap();
    assert_eq!(status.current_lap_duration, 3);
}

#[test]
fn gap_at_threshold_is_counted() {
    let mut st = started();
    let status = st.get_current_status(at(5)).unwrap();
    assert_eq!(status.current_lap_duration, 5);
}

#[test]
fn lap_duration_tick() {
    let mut s = CurrentSession {
        start_time: 0,
        day_key: "2015-05-15".to_string(),
        current_lap_start: 0,
        current_lap_start_timestamp: DAY,
        accumulated_seconds: 7,
        last_activity_time: 10,
        pause_origin: None,
    };
    assert_eq!(get_current_lap_duration(&mut s, 13), 10);
    assert_eq!(s.last_activity_time, 13);
    assert_eq!(get_current_lap_duration(&mut s, 30), 10);
    assert_eq!(s.last_activity_time, 30);
    assert_eq!(get_current_lap_duration(&mut s, 20), 10);
    s.pause_origin = Some(PauseOrigin::System);
    assert_eq!(get_current_lap_duration(&mut s, 22), 10);
    assert_eq!(s.last_activity_time, 20);
}

fn saved_session(day_key: &str, accumulated_seconds: u64) -> PersistedState {
    PersistedState {
        current_session: Some(PersistedSessionState {
            day_key: day_key.to_string(),
            current_lap_start_timestamp: DAY,
            accumulated_seconds,
            is_paused: false,
        }),
        day_records: vec![DayRecord {
            date: "2015-05-15".to_string(),
            total_duration: 0,
            laps: vec![Lap { start_time: DAY, end_time: None, duration: None }],
            is_active: true,
        }],
    }
}

#[test]
fn scenario_restart_restores_paused_session() {
    let mut st = started();
    tick(&mut st, 1, 4);
    let saved = st.capture();
    let p = saved.current_session.as_ref().unwrap();
    assert_eq!(p.accumulated_seconds, 4);
    assert!(!p.is_paused);
    let restart = Moment { monotonic: 3, epoch: DAY + 600 };
    let mut back = AppState::restore(saved, restart).unwrap();
    let s = back.current_session.as_ref().unwrap();
    assert_eq!(s.accumulated_seconds, 4);
    assert_eq!(s.pause_origin, Some(PauseOrigin::System));
    assert_eq!(s.current_lap_start_timestamp, DAY + 600);
    let status = back.get_current_status(Moment { monotonic: 50, epoch: DAY + 650 }).unwrap();
    assert!(!status.is_active);
    assert_eq!(accumulated(&back), 4);
    back.handle_screen_lock(Moment { monotonic: 60, epoch: DAY + 660 });
    assert_eq!(
        back.get_current_day_laps(),
        vec![Lap { start_time: DAY, end_time: Some(DAY + 660), duration: Some(4) }]
    );
}

#[test]
fn restart_resume_closes_restored_lap() {
    let mut back = AppState::restore(saved_session("2015-05-15", 9), at(100)).unwrap();
    assert_eq!(back.handle_screen_unlock(at(101)), SignalOutcome::Resumed);
    let laps = back.get_current_day_laps();
    assert_eq!(laps.len(), 2);
    assert_eq!(laps[0].duration, Some(9));
    assert_eq!(laps[1], Lap { start_time: DAY + 101, end_time: None, duration: None });
}

#[test]
fn restart_on_another_day_drops_session() {
    let back = AppState::restore(saved_session("2015-05-14", 9), at(100)).unwrap();
    assert!(back.current_session.is_none());
    assert_eq!(back.day_records.len(), 1);
}

#[test]
fn restart_rejects_broken_records() {
    let mut saved = saved_session("2015-05-15", 0);
    saved.day_records.push(DayRecord {
        date: "2015-05-15".to_string(),
        total_duration: 0,
        laps: vec![],
        is_active: false,
    });
    assert!(AppState::restore(saved, at(0)).is_none());
    let mut saved = saved_session("2015-05-15", 0);
    saved.day_records[0].laps.push(Lap { start_time: DAY, end_time: None, duration: None });
    assert!(AppState::restore(saved, at(0)).is_none());
    let mut saved = saved_session("2015-05-15", 0);
    saved.day_records[0].laps[0].duration = Some(3);
    assert!(AppState::restore(saved, at(0)).is_none());
}

#[test]
fn capture_without_session() {
    let st = AppState::new();
    let saved = st.capture();
    assert!(saved.current_session.is_none());
    assert!(saved.day_records.is_empty());
}

#[test]
fn user_pause_survives_lock_and_unlock() {
    let mut st = started();
    tick(&mut st, 1, 5);
    st.stop_lap(at(5)).unwrap();
    assert_eq!(st.handle_screen_lock(at(20)), SignalOutcome::UserPaused);
    assert_eq!(origin(&st), Some(PauseOrigin::User));
    assert_eq!(st.handle_screen_unlock(at(40)), SignalOutcome::UserPaused);
    assert_eq!(origin(&st), Some(PauseOrigin::User));
    assert_eq!(
        st.get_current_day_laps(),
        vec![Lap { start_time: DAY, end_time: Some(DAY + 5), duration: Some(5) }]
    );
    st.add_lap(at(41)).unwrap();
    assert_eq!(origin(&st), None);
}

#[test]
fn user_pause_survives_sleep_and_wake() {
    let mut st = started();
    tick(&mut st, 1, 4);
    st.stop_lap(at(4)).unwrap();
    assert_eq!(st.handle_system_sleep(at(10)), SignalOutcome::UserPaused);
    assert_eq!(st.handle_system_wake(at(3600)), SignalOutcome::UserPaused);
    assert_eq!(origin(&st), Some(PauseOrigin::User));
    assert_eq!(st.get_current_day_laps().len(), 1);
}
