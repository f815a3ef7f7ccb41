//! Reminder scheduling engine for a desktop exercise-break helper.
//!
//! The library decides, from a timer state, a reminder configuration and the
//! current clock readings, whether a reminder is due right now, and it keeps
//! the state needed to answer that question across process restarts.

mod app_state;
mod clock;
mod config;
mod engine;
mod persist;
mod rfc3339;
mod stats;

pub use app_state::AppState;
pub use app_state::ReminderStatus;
pub use app_state::start_exercise;
pub use clock::MAX_EPOCH_SECONDS;
pub use clock::MAX_MONO_SECONDS;
pub use clock::MINUTES_PER_DAY;
pub use clock::WallTime;
pub use clock::read_wall_clock;
pub use clock::wall_from_reading;
pub use config::ReminderConfig;
pub use config::UserSettings;
pub use config::WorkingHours;
pub use config::parse_minute_of_day;
pub use config::render_minute_of_day;
pub use engine::Decision;
pub use engine::SkipReason;
pub use engine::TimerState;
pub use engine::evaluate;
pub use persist::load_timer_state;
pub use persist::save_timer_state;
pub use stats::ExerciseStats;
