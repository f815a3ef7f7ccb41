//! Exercise completion statistics: a write target the core updates when an
//! exercise is completed.

use vstd::prelude::*;

verus! {

/// Completion counters and streak, with the wall-clock time of the last
/// completed exercise as an RFC 3339 string.
#[derive(Clone, Debug)]
pub struct ExerciseStats {
    /// Exercises completed today.
    pub today_count: u32,
    /// Exercises completed this week.
    pub week_count: u32,
    /// Exercises completed this month.
    pub month_count: u32,
    /// Exercises completed in total.
    pub total_count: u32,
    /// Consecutive days with at least one completed exercise.
    pub streak_days: u32,
    /// Wall-clock time of the last completed exercise.
    pub last_exercise_time: Option<String>,
}

impl ExerciseStats {
    /// An exact copy of these statistics.
    pub fn duplicate(&self) -> (r: ExerciseStats)
        ensures
            r == *self,
    {
        ExerciseStats {
            today_count: self.today_count,
            week_count: self.week_count,
            month_count: self.month_count,
            total_count: self.total_count,
            streak_days: self.streak_days,
            last_exercise_time: match &self.last_exercise_time {
                Some(s) => Some(s.clone()),
                None => None,
            },
        }
    }
}

impl Default for ExerciseStats {
    /// The starting statistics: every counter at zero, no exercise yet.
    fn default() -> (s: Self)
        ensures
            s.today_count == 0,
            s.week_count == 0,
            s.month_count == 0,
            s.total_count == 0,
            s.streak_days == 0,
            s.last_exercise_time is None,
    {
        ExerciseStats {
            today_count: 0,
            week_count: 0,
            month_count: 0,
            total_count: 0,
            streak_days: 0,
            last_exercise_time: None,
        }
    }
}

} // verus!
