//! The persistence bridge: the timer state is persisted as a wall-clock
//! mirror only, since monotonic instants mean nothing across restarts, and
//! is reconciled against both clocks on load.

use vstd::prelude::*;

use crate::clock::MAX_EPOCH_SECONDS;
use crate::clock::MAX_MONO_SECONDS;
use crate::clock::WallTime;
use crate::config::ReminderConfig;
use crate::engine::Decision;
use crate::engine::SkipReason;
use crate::engine::TimerState;
use crate::engine::spec_evaluate;
use crate::rfc3339::format_epoch_rfc3339;
use crate::rfc3339::parse_epoch_rfc3339;
use crate::rfc3339::rfc3339_epoch;
use crate::rfc3339::rfc3339_render;

verus! {

/// An `Option<i64>` as a mathematical optional integer.
pub open spec fn opt_as_int(o: Option<i64>) -> Option<int> {
    match o {
        None => None,
        Some(x) => Some(x as int),
    }
}

/// The monotonic last-fired instant reconciled from a parsed wall-clock
/// mirror: the elapsed wall-clock duration since the mirror, when it is
/// non-negative, is turned into the equivalent monotonic offset. A mirror
/// in the future (backward clock skew) or before the epoch yields `None`:
/// the reminder counts as never fired and is due immediately.
pub open spec fn spec_reconciled_mono(parsed: Option<int>, now_mono: int, wall_epoch: int) -> Option<
    int,
> {
    match parsed {
        None => None,
        Some(t) => if 0 <= t && t <= wall_epoch {
            Some(now_mono - (wall_epoch - t))
        } else {
            None
        },
    }
}

/// The wall-clock mirror retained from a parsed snapshot: kept when it is
/// a representable timestamp, discarded otherwise.
pub open spec fn spec_retained_wall(parsed: Option<int>) -> Option<int> {
    match parsed {
        None => None,
        Some(t) => if 0 <= t && t <= MAX_EPOCH_SECONDS {
            Some(t)
        } else {
            None
        },
    }
}

/// Rebuilds the timer state from a persisted wall-clock mirror.
///
/// An absent or unparsable mirror yields a state that never fired. A
/// parsed mirror no later than the current wall clock is converted into a
/// monotonic instant at the equivalent offset before `now_mono`; one in
/// the future — backward clock skew — yields `None` rather than a
/// negative elapsed duration.
pub fn load_timer_state(last_fired_wall: &Option<String>, now_mono: i64, wall_now: &WallTime) -> (st:
    TimerState)
    requires
        0 <= now_mono <= MAX_MONO_SECONDS,
        wall_now.wf(),
    ensures
        st.wf(),
        st.last_fired_mono matches Some(m) ==> m <= now_mono,
        (match *last_fired_wall {
            None => st.last_fired_mono is None && st.last_fired_wall is None,
            Some(s) => opt_as_int(st.last_fired_mono) == spec_reconciled_mono(
                rfc3339_epoch(s@),
                now_mono as int,
                wall_now.epoch_seconds as int,
            ) && opt_as_int(st.last_fired_wall) == spec_retained_wall(rfc3339_epoch(s@)),
        }),
{
    match last_fired_wall {
        None => TimerState { last_fired_mono: None, last_fired_wall: None },
        Some(s) => {
            match parse_epoch_rfc3339(s.as_str()) {
                None => TimerState { last_fired_mono: None, last_fired_wall: None },
                Some(t) => {
                    let mirror: Option<i64> = if 0 <= t && t <= MAX_EPOCH_SECONDS {
                        Some(t)
                    } else {
                        None
                    };
                    let mono: Option<i64> = if 0 <= t && t <= wall_now.epoch_seconds {
                        Some(now_mono - (wall_now.epoch_seconds - t))
                    } else {
                        None
                    };
                    TimerState { last_fired_mono: mono, last_fired_wall: mirror }
                },
            }
        },
    }
}

/// Writes the timer state's durable form: the wall-clock mirror as an RFC
/// 3339 string, or `None` when no fire has been recorded.
pub fn save_timer_state(state: &TimerState) -> (r: Option<String>)
    requires
        state.wf(),
    ensures
        r is Some <==> state.last_fired_wall is Some,
        r matches Some(s) ==> (state.last_fired_wall matches Some(t) && s@ == rfc3339_render(
            t as int,
        ) && rfc3339_epoch(s@) == Some(t as int)),
{
    match state.last_fired_wall {
        None => None,
        Some(t) => format_epoch_rfc3339(t),
    }
}

/// Backward clock skew on load never yields a fabricated instant: a mirror
/// later than the current wall clock reconciles to "never fired".
pub proof fn lemma_backward_skew_yields_none(parsed: Option<int>, now_mono: int, wall_epoch: int)
    requires
        parsed matches Some(t) ==> t > wall_epoch,
    ensures
        spec_reconciled_mono(parsed, now_mono, wall_epoch) is None,
{
}

/// A saved last fire survives a restart: a state reloaded from a snapshot
/// that denotes epoch second `t` skips with `TooSoon` strictly inside the
/// interval after `t` and fires from the moment the interval has elapsed,
/// working hours permitting — exactly as if the process had never
/// restarted.
pub proof fn lemma_round_trip_preserves_due(
    st: TimerState,
    snapshot: Seq<char>,
    t: int,
    config: ReminderConfig,
    now_mono: i64,
    wall_now: WallTime,
)
    requires
        config.wf(),
        config.enabled,
        wall_now.wf(),
        0 <= now_mono <= MAX_MONO_SECONDS,
        rfc3339_epoch(snapshot) == Some(t),
        0 <= t <= wall_now.epoch_seconds,
        opt_as_int(st.last_fired_mono) == spec_reconciled_mono(
            rfc3339_epoch(snapshot),
            now_mono as int,
            wall_now.epoch_seconds as int,
        ),
        !config.working_hours.enabled || config.working_hours.contains_minute(
            wall_now.minute_of_day as int,
        ),
    ensures
        wall_now.epoch_seconds - t >= config.interval_minutes * 60 ==> spec_evaluate(
            st,
            config,
            now_mono as int,
            wall_now,
        ) == Decision::Fire,
        wall_now.epoch_seconds - t < config.interval_minutes * 60 ==> spec_evaluate(
            st,
            config,
            now_mono as int,
            wall_now,
        ) == Decision::Skip(SkipReason::TooSoon),
{
}

} // verus!
