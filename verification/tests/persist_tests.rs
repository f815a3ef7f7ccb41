use kegel_helper::Decision;
use kegel_helper::ReminderConfig;
use kegel_helper::SkipReason;
use kegel_helper::TimerState;
use kegel_helper::WallTime;
use kegel_helper::WorkingHours;
use kegel_helper::evaluate;
use kegel_helper::load_timer_state;
use kegel_helper::save_timer_state;

fn config_half_hour() -> ReminderConfig {
    ReminderConfig {
        interval_minutes: 30,
        enabled: true,
        working_hours: WorkingHours { start: 540, end: 1080, enabled: false },
    }
}

#[test]
fn save_of_never_fired_is_none() {
    let state = TimerState { last_fired_mono: None, last_fired_wall: None };
    assert_eq!(save_timer_state(&state), None);
}

#[test]
fn save_renders_epoch_zero_exactly() {
    let state = TimerState { last_fired_mono: Some(0), last_fired_wall: Some(0) };
    assert_eq!(
        save_timer_state(&state).as_deref(),
        Some("1970-01-01T00:00:00+00:00")
    );
}

#[test]
fn round_trip_preserves_the_due_check() {
    // Fired at epoch second 1_700_000_000; the process restarts.
    let fired = TimerState {
        last_fired_mono: Some(123),
        last_fired_wall: Some(1_700_000_000),
    };
    let snapshot = save_timer_state(&fired);
    assert!(snapshot.is_some());

    // One full interval later the reminder is due again.
    let after_interval = WallTime { epoch_seconds: 1_700_000_000 + 1800, minute_of_day: 600 };
    let reloaded = load_timer_state(&snapshot, 40, &after_interval);
    assert_eq!(reloaded.last_fired_mono, Some(40 - 1800));
    assert_eq!(reloaded.last_fired_wall, Some(1_700_000_000));
    assert_eq!(
        evaluate(&reloaded, &config_half_hour(), 40, &after_interval),
        Decision::Fire
    );

    // Half an interval later it is too soon.
    let after_half = WallTime { epoch_seconds: 1_700_000_000 + 900, minute_of_day: 600 };
    let reloaded_half = load_timer_state(&snapshot, 40, &after_half);
    assert_eq!(reloaded_half.last_fired_mono, Some(40 - 900));
    assert_eq!(
        evaluate(&reloaded_half, &config_half_hour(), 40, &after_half),
        Decision::Skip(SkipReason::TooSoon)
    );
}

#[test]
fn backward_clock_skew_yields_never_fired() {
    // The persisted mirror lies in the future of the current wall clock.
    let mirror = Some(String::from("2024-01-15T10:00:00+00:00"));
    let earlier = WallTime { epoch_seconds: 1_705_312_800 - 3600, minute_of_day: 540 };
    let reloaded = load_timer_state(&mirror, 10_000, &earlier);
    assert_eq!(reloaded.last_fired_mono, None);
    assert_eq!(reloaded.last_fired_wall, Some(1_705_312_800));
    // Never fired means due immediately.
    assert_eq!(
        evaluate(&reloaded, &config_half_hour(), 10_000, &earlier),
        Decision::Fire
    );
}

#[test]
fn parse_reconciles_against_both_clocks() {
    // 2024-01-15T10:00:00Z is epoch second 1_705_312_800; one hundred
    // wall-clock seconds have passed since the fire.
    let mirror = Some(String::from("2024-01-15T10:00:00+00:00"));
    let now_wall = WallTime { epoch_seconds: 1_705_312_800 + 100, minute_of_day: 602 };
    let reloaded = load_timer_state(&mirror, 5_000, &now_wall);
    assert_eq!(reloaded.last_fired_mono, Some(5_000 - 100));
    assert_eq!(reloaded.last_fired_wall, Some(1_705_312_800));
}

#[test]
fn parse_honours_timezone_offsets() {
    // 18:00 at +08:00 is the same instant as 10:00 UTC.
    let mirror = Some(String::from("2024-01-15T18:00:00+08:00"));
    let now_wall = WallTime { epoch_seconds: 1_705_312_800 + 60, minute_of_day: 601 };
    let reloaded = load_timer_state(&mirror, 1_000, &now_wall);
    assert_eq!(reloaded.last_fired_mono, Some(1_000 - 60));
    assert_eq!(reloaded.last_fired_wall, Some(1_705_312_800));
}

#[test]
fn unparsable_mirror_is_never_fired() {
    let mirror = Some(String::from("not a timestamp"));
    let w = WallTime { epoch_seconds: 1_000_000, minute_of_day: 600 };
    let reloaded = load_timer_state(&mirror, 1_000, &w);
    assert_eq!(reloaded.last_fired_mono, None);
    assert_eq!(reloaded.last_fired_wall, None);
}

#[test]
fn absent_mirror_is_never_fired() {
    let w = WallTime { epoch_seconds: 1_000_000, minute_of_day: 600 };
    let reloaded = load_timer_state(&None, 1_000, &w);
    assert_eq!(reloaded.last_fired_mono, None);
    assert_eq!(reloaded.last_fired_wall, None);
}

#[test]
fn save_at_range_end_round_trips() {
    // The last supported second, 9999-12-31T23:59:59Z.
    let state = TimerState { last_fired_mono: Some(0), last_fired_wall: Some(253_402_300_799) };
    let snapshot = save_timer_state(&state);
    assert_eq!(snapshot.as_deref(), Some("9999-12-31T23:59:59+00:00"));
    let w = WallTime { epoch_seconds: 253_402_300_799, minute_of_day: 1439 };
    let reloaded = load_timer_state(&snapshot, 10, &w);
    assert_eq!(reloaded.last_fired_wall, Some(253_402_300_799));
    assert_eq!(reloaded.last_fired_mono, Some(10));
}

#[test]
fn save_then_load_at_same_instant_is_too_soon() {
    let fired = TimerState { last_fired_mono: Some(0), last_fired_wall: Some(1_700_000_000) };
    let snapshot = save_timer_state(&fired);
    let same_instant = WallTime { epoch_seconds: 1_700_000_000, minute_of_day: 600 };
    let reloaded = load_timer_state(&snapshot, 77, &same_instant);
    assert_eq!(reloaded.last_fired_mono, Some(77));
    assert_eq!(
        evaluate(&reloaded, &config_half_hour(), 77, &same_instant),
        Decision::Skip(SkipReason::TooSoon)
    );
}
