//! The application context: settings, statistics, the engine's
//! configuration and the timer state, with the operations the collaborators
//! call. The caller serializes access (one lock around the whole context)
//! and persists snapshots; every decision and transition is made here.

use vstd::prelude::*;

use crate::clock::MAX_EPOCH_SECONDS;
use crate::clock::MAX_MONO_SECONDS;
use crate::clock::WallTime;
use crate::config::ReminderConfig;
use crate::config::UserSettings;
use crate::config::WorkingHours;
use crate::engine::Decision;
use crate::engine::TimerState;
use crate::engine::evaluate;
use crate::engine::spec_evaluate;
use crate::engine::spec_step;
use crate::persist::load_timer_state;
use crate::persist::opt_as_int;
use crate::persist::spec_reconciled_mono;
use crate::persist::spec_retained_wall;
use crate::rfc3339::format_epoch_rfc3339;
use crate::rfc3339::rfc3339_epoch;
use crate::rfc3339::rfc3339_render;
use crate::stats::ExerciseStats;

verus! {

/// What the status query reports: the master switch, the estimated next
/// due time as an RFC 3339 string, and the interval.
#[derive(Clone, Debug)]
pub struct ReminderStatus {
    /// Whether reminders are on.
    pub enabled: bool,
    /// Estimated wall-clock time of the next fire; `None` when disabled.
    pub next_reminder: Option<String>,
    /// Minutes between reminders.
    pub interval: u32,
}

/// The estimated epoch second of the next fire: the last recorded fire
/// plus one interval when a fire is recorded, else now — the first fire
/// after enabling is immediate. `None` when disabled.
pub open spec fn spec_next_due_epoch(
    config: ReminderConfig,
    timer: TimerState,
    wall_now: WallTime,
) -> Option<int> {
    if !config.enabled {
        None
    } else {
        match timer.last_fired_wall {
            Some(t) => Some(t + config.interval_minutes * 60),
            None => Some(wall_now.epoch_seconds as int),
        }
    }
}

/// The application context, owning the three pieces of state. All access
/// funnels through one caller-held point of mutual exclusion.
pub struct AppState {
    /// The full user settings, as the settings collaborator pushed them.
    pub settings: UserSettings,
    /// Completion statistics.
    pub stats: ExerciseStats,
    /// The engine's view of the configuration.
    pub config: ReminderConfig,
    /// The engine's timer state.
    pub timer: TimerState,
}

impl AppState {
    /// Settings, configuration and timer state are all well formed.
    pub open spec fn wf(self) -> bool {
        self.settings.wf() && self.config.wf() && self.timer.wf()
    }

    /// A fresh context: default settings and statistics, the reminder
    /// timer off until loaded settings or a toggle enable it.
    pub fn new() -> (s: AppState)
        ensures
            s.wf(),
            s.settings.reminder_interval == 30,
            s.settings.exercise_duration == 5,
            s.settings.repetitions == 10,
            s.settings.enable_sound,
            s.settings.enable_notifications,
            s.settings.theme@ == "light"@,
            s.settings.working_hours == (WorkingHours { start: 540, end: 1080, enabled: true }),
            s.settings.last_reminder_time is None,
            s.stats.today_count == 0,
            s.stats.week_count == 0,
            s.stats.month_count == 0,
            s.stats.total_count == 0,
            s.stats.streak_days == 0,
            s.stats.last_exercise_time is None,
            s.config == (ReminderConfig {
                interval_minutes: 30,
                enabled: false,
                working_hours: WorkingHours { start: 540, end: 1080, enabled: true },
            }),
            s.timer.last_fired_mono is None,
            s.timer.last_fired_wall is None,
    {
        AppState {
            settings: UserSettings::default(),
            stats: ExerciseStats::default(),
            config: ReminderConfig {
                interval_minutes: 30,
                enabled: false,
                working_hours: WorkingHours::default(),
            },
            timer: TimerState::never_fired(),
        }
    }

    /// A copy of the current settings.
    pub fn get_settings(&self) -> (r: UserSettings)
        ensures
            r == self.settings,
    {
        self.settings.duplicate()
    }

    /// A copy of the current statistics.
    pub fn get_stats(&self) -> (r: ExerciseStats)
        ensures
            r == self.stats,
    {
        self.stats.duplicate()
    }

    /// Installs loaded settings and reconciles the timer state from their
    /// persisted last-reminder mirror, as on process start: the engine's
    /// configuration mirrors the settings, and the mirror timestamp is
    /// turned back into a monotonic instant where the wall clock allows.
    pub fn apply_loaded_settings(
        &mut self,
        settings: UserSettings,
        now_mono: i64,
        wall_now: &WallTime,
    )
        requires
            settings.wf(),
            0 <= now_mono <= MAX_MONO_SECONDS,
            wall_now.wf(),
        ensures
            final(self).wf(),
            final(self).settings == settings,
            final(self).stats == old(self).stats,
            final(self).config == (ReminderConfig {
                interval_minutes: settings.reminder_interval,
                enabled: settings.enable_notifications,
                working_hours: settings.working_hours,
            }),
            final(self).timer.last_fired_mono matches Some(m) ==> m <= now_mono,
            (match settings.last_reminder_time {
                None => final(self).timer.last_fired_mono is None
                    && final(self).timer.last_fired_wall is None,
                Some(s) => opt_as_int(final(self).timer.last_fired_mono) == spec_reconciled_mono(
                    rfc3339_epoch(s@),
                    now_mono as int,
                    wall_now.epoch_seconds as int,
                ) && opt_as_int(final(self).timer.last_fired_wall) == spec_retained_wall(
                    rfc3339_epoch(s@),
                ),
            }),
    {
        self.config = ReminderConfig {
            interval_minutes: settings.reminder_interval,
            enabled: settings.enable_notifications,
            working_hours: settings.working_hours,
        };
        self.timer = load_timer_state(&settings.last_reminder_time, now_mono, wall_now);
        self.settings = settings;
    }

    /// Replaces the settings wholesale. While the reminder is enabled, the
    /// engine's configuration follows the new settings and the countdown
    /// restarts from now — a configuration edit never changes when the
    /// next fire occurs relative to the previous one.
    pub fn update_settings(&mut self, new_settings: UserSettings)
        requires
            old(self).wf(),
            new_settings.wf(),
        ensures
            final(self).wf(),
            final(self).settings == new_settings,
            final(self).stats == old(self).stats,
            old(self).config.enabled ==> final(self).config == (ReminderConfig {
                interval_minutes: new_settings.reminder_interval,
                enabled: true,
                working_hours: new_settings.working_hours,
            }),
            old(self).config.enabled ==> final(self).timer.last_fired_mono is None,
            old(self).config.enabled ==> final(self).timer.last_fired_wall
                == old(self).timer.last_fired_wall,
            !old(self).config.enabled ==> final(self).config == old(self).config
                && final(self).timer == old(self).timer,
    {
        if self.config.enabled {
            self.config = ReminderConfig {
                interval_minutes: new_settings.reminder_interval,
                enabled: true,
                working_hours: new_settings.working_hours,
            };
            self.timer.last_fired_mono = None;
        }
        self.settings = new_settings;
    }

    /// Flips the master switch and mirrors it into the settings. Enabling
    /// copies the interval and window from the settings; either way the
    /// countdown resets, so a reminder enabled anew is due immediately.
    pub fn toggle_reminder(&mut self) -> (enabled: bool)
        requires
            old(self).wf(),
        ensures
            final(self).wf(),
            enabled == !old(self).config.enabled,
            final(self).config.enabled == enabled,
            final(self).settings.enable_notifications == enabled,
            final(self).timer.last_fired_mono is None,
            final(self).timer.last_fired_wall == old(self).timer.last_fired_wall,
            final(self).stats == old(self).stats,
            enabled ==> final(self).config.interval_minutes == old(self).settings.reminder_interval
                && final(self).config.working_hours == old(self).settings.working_hours,
            !enabled ==> final(self).config.interval_minutes == old(self).config.interval_minutes
                && final(self).config.working_hours == old(self).config.working_hours,
            final(self).settings == old(self).settings.with_notifications(enabled),
    {
        let enabled = !self.config.enabled;
        if enabled {
            self.config = ReminderConfig {
                interval_minutes: self.settings.reminder_interval,
                enabled: true,
                working_hours: self.settings.working_hours,
            };
        } else {
            self.config.enabled = false;
        }
        self.timer.last_fired_mono = None;
        self.settings.enable_notifications = enabled;
        enabled
    }

    /// Evaluates whether a reminder is due and applies the transition: a
    /// fire records both clock readings and refreshes the settings'
    /// persisted mirror; every skip leaves the whole context unchanged.
    /// The caller notifies the delivery collaborator and persists the
    /// settings exactly when `Fire` is returned.
    pub fn check_reminder(&mut self, now_mono: i64, wall_now: &WallTime) -> (d: Decision)
        requires
            old(self).wf(),
            wall_now.wf(),
            0 <= now_mono <= MAX_MONO_SECONDS,
            old(self).timer.last_fired_mono matches Some(t) ==> t <= now_mono,
        ensures
            final(self).wf(),
            d == spec_evaluate(old(self).timer, old(self).config, now_mono as int, *wall_now),
            (d, final(self).timer) == spec_step(
                old(self).timer,
                old(self).config,
                now_mono,
                *wall_now,
            ),
            final(self).config == old(self).config,
            final(self).stats == old(self).stats,
            d != Decision::Fire ==> final(self).settings == old(self).settings,
            d == Decision::Fire ==> (final(self).settings.last_reminder_time matches Some(s) && s@
                == rfc3339_render(wall_now.epoch_seconds as int)),
            d == Decision::Fire ==> final(self).settings == old(self).settings.with_mirror(
                final(self).settings.last_reminder_time,
            ),
    {
        let d = evaluate(&self.timer, &self.config, now_mono, wall_now);
        match d {
            Decision::Fire => {
                self.timer.last_fired_mono = Some(now_mono);
                self.timer.last_fired_wall = Some(wall_now.epoch_seconds);
                match format_epoch_rfc3339(wall_now.epoch_seconds) {
                    Some(s) => {
                        self.settings.last_reminder_time = Some(s);
                    },
                    None => {
                        proof {
                            assert(false);
                        }
                    },
                }
            },
            Decision::Skip(_) => {},
        }
        d
    }

    /// Reports the current reminder status: the switch, the interval, and
    /// the estimated next due time rendered as an RFC 3339 string. An
    /// estimate past the supported range — a fire recorded near the year
    /// 9999 plus the interval — has no rendering and reports `None`.
    pub fn get_reminder_status(&self, wall_now: &WallTime) -> (r: ReminderStatus)
        requires
            self.wf(),
            wall_now.wf(),
        ensures
            r.enabled == self.config.enabled,
            r.interval == self.config.interval_minutes,
            spec_next_due_epoch(self.config, self.timer, *wall_now) is None ==> r.next_reminder
                is None,
            spec_next_due_epoch(self.config, self.timer, *wall_now) matches Some(e) ==> (e
                <= MAX_EPOCH_SECONDS ==> (r.next_reminder matches Some(s) && s@ == rfc3339_render(e)
                && rfc3339_epoch(s@) == Some(e))),
            spec_next_due_epoch(self.config, self.timer, *wall_now) matches Some(e) ==> (e
                > MAX_EPOCH_SECONDS ==> r.next_reminder is None),
    {
        if !self.config.enabled {
            ReminderStatus {
                enabled: false,
                next_reminder: None,
                interval: self.config.interval_minutes,
            }
        } else {
            let next_epoch: i64 = match self.timer.last_fired_wall {
                Some(t) => t + self.config.interval_minutes as i64 * 60,
                None => wall_now.epoch_seconds,
            };
            let next_reminder = if next_epoch <= MAX_EPOCH_SECONDS {
                format_epoch_rfc3339(next_epoch)
            } else {
                None
            };
            ReminderStatus {
                enabled: true,
                next_reminder,
                interval: self.config.interval_minutes,
            }
        }
    }

    /// Records a completed exercise: bumps today's and the total counter
    /// and stamps the completion time.
    pub fn complete_exercise(&mut self, wall_now: &WallTime)
        requires
            old(self).wf(),
            wall_now.wf(),
            old(self).stats.today_count < u32::MAX,
            old(self).stats.total_count < u32::MAX,
        ensures
            final(self).wf(),
            final(self).stats.today_count == old(self).stats.today_count + 1,
            final(self).stats.total_count == old(self).stats.total_count + 1,
            final(self).stats.week_count == old(self).stats.week_count,
            final(self).stats.month_count == old(self).stats.month_count,
            final(self).stats.streak_days == old(self).stats.streak_days,
            final(self).stats.last_exercise_time matches Some(s) && s@ == rfc3339_render(
                wall_now.epoch_seconds as int,
            ),
            final(self).settings == old(self).settings,
            final(self).config == old(self).config,
            final(self).timer == old(self).timer,
    {
        self.stats.today_count = self.stats.today_count + 1;
        self.stats.total_count = self.stats.total_count + 1;
        match format_epoch_rfc3339(wall_now.epoch_seconds) {
            Some(s) => {
                self.stats.last_exercise_time = Some(s);
            },
            None => {
                proof {
                    assert(false);
                }
            },
        }
    }
}

/// The wall-clock time an exercise starts, rendered as an RFC 3339
/// string for the starting collaborator.
pub fn start_exercise(wall_now: &WallTime) -> (r: String)
    requires
        wall_now.wf(),
    ensures
        r@ == rfc3339_render(wall_now.epoch_seconds as int),
        rfc3339_epoch(r@) == Some(wall_now.epoch_seconds as int),
{
    match format_epoch_rfc3339(wall_now.epoch_seconds) {
        Some(s) => s,
        None => {
            proof {
                assert(false);
            }
            String::new()
        },
    }
}

} // verus!
