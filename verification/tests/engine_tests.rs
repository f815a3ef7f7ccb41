use kegel_helper::AppState;
use kegel_helper::Decision;
use kegel_helper::ReminderConfig;
use kegel_helper::SkipReason;
use kegel_helper::TimerState;
use kegel_helper::WallTime;
use kegel_helper::WorkingHours;
use kegel_helper::evaluate;

fn enabled_config(interval_minutes: u32, working_hours: WorkingHours) -> ReminderConfig {
    ReminderConfig { interval_minutes, enabled: true, working_hours }
}

fn office_hours() -> WorkingHours {
    WorkingHours { start: 540, end: 1080, enabled: true }
}

fn no_window() -> WorkingHours {
    WorkingHours { start: 540, end: 1080, enabled: false }
}

fn wall(epoch_seconds: i64, minute_of_day: u16) -> WallTime {
    WallTime { epoch_seconds, minute_of_day }
}

#[test]
fn disabled_skips_regardless_of_elapsed() {
    let config = ReminderConfig { interval_minutes: 30, enabled: false, working_hours: office_hours() };
    let never = TimerState { last_fired_mono: None, last_fired_wall: None };
    let long_ago = TimerState { last_fired_mono: Some(0), last_fired_wall: Some(0) };
    let w = wall(1_000_000, 600);
    assert_eq!(evaluate(&never, &config, 0, &w), Decision::Skip(SkipReason::Disabled));
    assert_eq!(evaluate(&never, &config, 1_000_000, &w), Decision::Skip(SkipReason::Disabled));
    assert_eq!(evaluate(&long_ago, &config, 1_000_000, &w), Decision::Skip(SkipReason::Disabled));
}

#[test]
fn never_fired_fires_immediately() {
    let never = TimerState { last_fired_mono: None, last_fired_wall: None };
    let inside = wall(1_000_000, 600);
    assert_eq!(
        evaluate(&never, &enabled_config(30, office_hours()), 0, &inside),
        Decision::Fire
    );
    assert_eq!(
        evaluate(&never, &enabled_config(30, no_window()), 0, &wall(1_000_000, 100)),
        Decision::Fire
    );
}

#[test]
fn interval_boundary_is_inclusive() {
    let config = enabled_config(30, no_window());
    let state = TimerState { last_fired_mono: Some(10_000), last_fired_wall: Some(1_000_000) };
    let w = wall(1_001_800, 600);
    assert_eq!(
        evaluate(&state, &config, 10_000 + 1799, &w),
        Decision::Skip(SkipReason::TooSoon)
    );
    assert_eq!(evaluate(&state, &config, 10_000 + 1800, &w), Decision::Fire);
    assert_eq!(evaluate(&state, &config, 10_000 + 1801, &w), Decision::Fire);
}

#[test]
fn window_boundaries_are_inclusive() {
    let config = enabled_config(30, office_hours());
    let never = TimerState { last_fired_mono: None, last_fired_wall: None };
    assert_eq!(evaluate(&never, &config, 0, &wall(0, 540)), Decision::Fire);
    assert_eq!(evaluate(&never, &config, 0, &wall(0, 1080)), Decision::Fire);
    assert_eq!(
        evaluate(&never, &config, 0, &wall(0, 539)),
        Decision::Skip(SkipReason::OutsideWorkingHours)
    );
    assert_eq!(
        evaluate(&never, &config, 0, &wall(0, 1081)),
        Decision::Skip(SkipReason::OutsideWorkingHours)
    );
}

#[test]
fn midnight_spanning_window_covers_both_sides() {
    let overnight = WorkingHours { start: 1320, end: 360, enabled: true };
    let config = enabled_config(30, overnight);
    let never = TimerState { last_fired_mono: None, last_fired_wall: None };
    assert_eq!(evaluate(&never, &config, 0, &wall(0, 1380)), Decision::Fire);
    assert_eq!(evaluate(&never, &config, 0, &wall(0, 100)), Decision::Fire);
    assert_eq!(evaluate(&never, &config, 0, &wall(0, 1320)), Decision::Fire);
    assert_eq!(evaluate(&never, &config, 0, &wall(0, 360)), Decision::Fire);
    assert_eq!(
        evaluate(&never, &config, 0, &wall(0, 720)),
        Decision::Skip(SkipReason::OutsideWorkingHours)
    );
    assert_eq!(
        evaluate(&never, &config, 0, &wall(0, 1319)),
        Decision::Skip(SkipReason::OutsideWorkingHours)
    );
    assert_eq!(
        evaluate(&never, &config, 0, &wall(0, 361)),
        Decision::Skip(SkipReason::OutsideWorkingHours)
    );
}

#[test]
fn deferral_outside_hours_keeps_due_signal() {
    let mut state = AppState::new();
    assert!(state.toggle_reminder());
    let outside = wall(1_000_000, 1200);
    for _ in 0..3 {
        assert_eq!(
            state.check_reminder(5_000, &outside),
            Decision::Skip(SkipReason::OutsideWorkingHours)
        );
        assert_eq!(state.timer.last_fired_mono, None);
        assert_eq!(state.timer.last_fired_wall, None);
    }
    let inside = wall(1_003_600, 600);
    assert_eq!(state.check_reminder(8_600, &inside), Decision::Fire);
    assert_eq!(state.timer.last_fired_mono, Some(8_600));
    assert_eq!(state.timer.last_fired_wall, Some(1_003_600));
}

#[test]
fn scenario_half_hour_interval_across_a_day() {
    let mut state = AppState::new();
    assert!(state.toggle_reminder());
    assert_eq!(state.config.interval_minutes, 30);
    assert!(state.config.working_hours.enabled);

    // 10:00, never fired: due immediately.
    let ten = wall(1_000_000, 600);
    assert_eq!(state.check_reminder(0, &ten), Decision::Fire);
    assert_eq!(state.timer.last_fired_mono, Some(0));
    assert_eq!(state.timer.last_fired_wall, Some(1_000_000));

    // Still 10:00: too soon.
    assert_eq!(state.check_reminder(0, &ten), Decision::Skip(SkipReason::TooSoon));

    // 10:30: the interval has elapsed.
    let half_past = wall(1_001_800, 630);
    assert_eq!(state.check_reminder(1_800, &half_past), Decision::Fire);

    // 20:00, interval elapsed but outside hours: deferred, state unchanged.
    let evening = wall(1_036_000, 1200);
    assert_eq!(
        state.check_reminder(36_000, &evening),
        Decision::Skip(SkipReason::OutsideWorkingHours)
    );
    assert_eq!(state.timer.last_fired_mono, Some(1_800));
    assert_eq!(state.timer.last_fired_wall, Some(1_001_800));
}

#[test]
fn one_fire_per_due_period_under_repeated_checks() {
    let mut state = AppState::new();
    assert!(state.toggle_reminder());
    let w = wall(1_000_000, 600);
    let mut fires = 0;
    let mut too_soon = 0;
    for _ in 0..5 {
        match state.check_reminder(7_777, &w) {
            Decision::Fire => fires += 1,
            Decision::Skip(SkipReason::TooSoon) => too_soon += 1,
            other => panic!("unexpected decision {:?}", other),
        }
    }
    assert_eq!(fires, 1);
    assert_eq!(too_soon, 4);
}
