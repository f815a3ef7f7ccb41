//! The reminder decision engine: a pure function from timer state,
//! configuration and the current clock readings to a decision, and the
//! state transition a fire causes.

use vstd::prelude::*;

use crate::clock::MAX_EPOCH_SECONDS;
use crate::clock::MAX_MONO_SECONDS;
use crate::clock::WallTime;
use crate::config::ReminderConfig;

verus! {

/// Why a reminder was not fired.
#[derive(Clone, Copy, Debug, PartialEq, Eq, Structural)]
pub enum SkipReason {
    /// The master switch is off.
    Disabled,
    /// The interval since the last fire has not elapsed yet.
    TooSoon,
    /// The wall clock is outside the working-hours window; the reminder
    /// stays pending and is re-evaluated on the next tick.
    OutsideWorkingHours,
}

/// The decision the engine returns for one evaluation.
#[derive(Clone, Copy, Debug, PartialEq, Eq, Structural)]
pub enum Decision {
    /// Fire a reminder now; the caller records the fire in the state.
    Fire,
    /// Do not fire, for the given reason.
    Skip(SkipReason),
}

/// The state the engine keeps between evaluations. Monotonic instants are
/// seconds from an origin the caller picks (readings themselves are
/// non-negative; a reconciled last-fired instant may lie before the
/// origin). `None` means no fire has been recorded since the last enable.
#[derive(Clone, Copy, Debug)]
pub struct TimerState {
    /// Monotonic instant of the last fire; drives the interval check.
    pub last_fired_mono: Option<i64>,
    /// Epoch seconds of the last fire; the persisted mirror.
    pub last_fired_wall: Option<i64>,
}

impl TimerState {
    /// Both recorded instants lie in the library's supported ranges.
    pub open spec fn wf(self) -> bool {
        &&& (self.last_fired_mono matches Some(m) ==> -MAX_EPOCH_SECONDS <= m
            <= MAX_MONO_SECONDS)
        &&& (self.last_fired_wall matches Some(w) ==> 0 <= w <= MAX_EPOCH_SECONDS)
    }

    /// The state before any fire.
    pub fn never_fired() -> (st: TimerState)
        ensures
            st.last_fired_mono is None,
            st.last_fired_wall is None,
            st.wf(),
    {
        TimerState { last_fired_mono: None, last_fired_wall: None }
    }
}

/// Whether the interval since the last fire has not fully elapsed at
/// monotonic instant `now_mono`. A state that never fired is never too
/// soon: the first evaluation after enabling is due immediately.
pub open spec fn is_too_soon(state: TimerState, config: ReminderConfig, now_mono: int) -> bool {
    match state.last_fired_mono {
        None => false,
        Some(t) => now_mono - t < config.interval_minutes * 60,
    }
}

/// The decision for one evaluation: skip when disabled, when the interval
/// has not elapsed, or when the working-hours window is closed; otherwise
/// fire. The elapsed-interval bound is inclusive: an elapsed time equal to
/// the interval fires.
pub open spec fn spec_evaluate(
    state: TimerState,
    config: ReminderConfig,
    now_mono: int,
    wall_now: WallTime,
) -> Decision {
    if !config.enabled {
        Decision::Skip(SkipReason::Disabled)
    } else if is_too_soon(state, config, now_mono) {
        Decision::Skip(SkipReason::TooSoon)
    } else if config.working_hours.enabled && !config.working_hours.contains_minute(
        wall_now.minute_of_day as int,
    ) {
        Decision::Skip(SkipReason::OutsideWorkingHours)
    } else {
        Decision::Fire
    }
}

/// One evaluation together with the transition it causes: a fire records
/// both clock readings; every skip, a deferral outside working hours
/// included, leaves the state exactly as it was.
pub open spec fn spec_step(
    state: TimerState,
    config: ReminderConfig,
    now_mono: i64,
    wall_now: WallTime,
) -> (Decision, TimerState) {
    let d = spec_evaluate(state, config, now_mono as int, wall_now);
    if d == Decision::Fire {
        (
            d,
            TimerState {
                last_fired_mono: Some(now_mono),
                last_fired_wall: Some(wall_now.epoch_seconds),
            },
        )
    } else {
        (d, state)
    }
}

/// The decisions of `n` consecutive evaluate-and-transition calls made at
/// the same pair of clock readings.
pub open spec fn spec_run(
    state: TimerState,
    config: ReminderConfig,
    now_mono: i64,
    wall_now: WallTime,
    n: nat,
) -> Seq<Decision>
    decreases n,
{
    if n == 0 {
        Seq::empty()
    } else {
        let (d, next) = spec_step(state, config, now_mono, wall_now);
        seq![d] + spec_run(next, config, now_mono, wall_now, (n - 1) as nat)
    }
}

/// Evaluates whether a reminder is due right now.
///
/// `now_mono` must come from a monotonic clock: it never lies before a
/// recorded last fire.
pub fn evaluate(
    state: &TimerState,
    config: &ReminderConfig,
    now_mono: i64,
    wall_now: &WallTime,
) -> (d: Decision)
    requires
        state.wf(),
        config.wf(),
        wall_now.wf(),
        0 <= now_mono <= MAX_MONO_SECONDS,
        state.last_fired_mono matches Some(t) ==> t <= now_mono,
    ensures
        d == spec_evaluate(*state, *config, now_mono as int, *wall_now),
{
    if !config.enabled {
        return Decision::Skip(SkipReason::Disabled);
    }
    let interval_seconds: i64 = config.interval_minutes as i64 * 60;
    match state.last_fired_mono {
        Some(last) => {
            let elapsed: i64 = now_mono - last;
            if elapsed < interval_seconds {
                return Decision::Skip(SkipReason::TooSoon);
            }
        },
        None => {},
    }
    if config.working_hours.enabled && !config.working_hours.contains(wall_now.minute_of_day) {
        return Decision::Skip(SkipReason::OutsideWorkingHours);
    }
    Decision::Fire
}

/// With the master switch off, every evaluation skips with `Disabled`,
/// whatever the elapsed time or the wall clock.
pub proof fn lemma_disabled_always_skips(
    state: TimerState,
    config: ReminderConfig,
    now_mono: int,
    wall_now: WallTime,
)
    requires
        !config.enabled,
    ensures
        spec_evaluate(state, config, now_mono, wall_now) == Decision::Skip(SkipReason::Disabled),
{
}

/// A state that never fired is due immediately: with the switch on and the
/// working-hours window open (or not gating), the evaluation fires.
pub proof fn lemma_never_fired_is_due(
    state: TimerState,
    config: ReminderConfig,
    now_mono: int,
    wall_now: WallTime,
)
    requires
        config.enabled,
        state.last_fired_mono is None,
        !config.working_hours.enabled || config.working_hours.contains_minute(
            wall_now.minute_of_day as int,
        ),
    ensures
        spec_evaluate(state, config, now_mono, wall_now) == Decision::Fire,
{
}

/// The interval gate: before the interval has elapsed the evaluation
/// skips with `TooSoon`; from the moment it has elapsed, the bound being
/// inclusive, it fires whenever the window is open.
pub proof fn lemma_interval_gate(
    state: TimerState,
    config: ReminderConfig,
    now_mono: int,
    wall_now: WallTime,
    t: i64,
)
    requires
        config.enabled,
        state.last_fired_mono == Some(t),
    ensures
        now_mono - t < config.interval_minutes * 60 ==> spec_evaluate(
            state,
            config,
            now_mono,
            wall_now,
        ) == Decision::Skip(SkipReason::TooSoon),
        now_mono - t >= config.interval_minutes * 60 && (!config.working_hours.enabled
            || config.working_hours.contains_minute(wall_now.minute_of_day as int))
            ==> spec_evaluate(state, config, now_mono, wall_now) == Decision::Fire,
{
}

/// The working-hours boundaries at the decision level: with the switch
/// on, the interval elapsed and a window that does not span midnight, an
/// evaluation at the window's first or last minute fires — both endpoints
/// are inside — while one a minute before the start or a minute after the
/// end defers with `OutsideWorkingHours`.
pub proof fn lemma_window_gate_boundaries(
    state: TimerState,
    config: ReminderConfig,
    now_mono: int,
    wall_now: WallTime,
)
    requires
        config.enabled,
        config.working_hours.enabled,
        config.working_hours.wf(),
        config.working_hours.start <= config.working_hours.end,
        !is_too_soon(state, config, now_mono),
    ensures
        wall_now.minute_of_day == config.working_hours.start ==> spec_evaluate(
            state,
            config,
            now_mono,
            wall_now,
        ) == Decision::Fire,
        wall_now.minute_of_day == config.working_hours.end ==> spec_evaluate(
            state,
            config,
            now_mono,
            wall_now,
        ) == Decision::Fire,
        wall_now.minute_of_day + 1 == config.working_hours.start ==> spec_evaluate(
            state,
            config,
            now_mono,
            wall_now,
        ) == Decision::Skip(SkipReason::OutsideWorkingHours),
        wall_now.minute_of_day == config.working_hours.end + 1 ==> spec_evaluate(
            state,
            config,
            now_mono,
            wall_now,
        ) == Decision::Skip(SkipReason::OutsideWorkingHours),
{
}

/// A deferral outside working hours is stable: it mutates nothing, and the
/// due signal is not lost. At any later monotonic instant the evaluation
/// still defers while the window is closed and fires as soon as it opens.
pub proof fn lemma_deferred_decision_is_stable(
    state: TimerState,
    config: ReminderConfig,
    now_mono: i64,
    wall_now: WallTime,
    later_mono: int,
    wall_later: WallTime,
)
    requires
        spec_evaluate(state, config, now_mono as int, wall_now) == Decision::Skip(
            SkipReason::OutsideWorkingHours,
        ),
        now_mono <= later_mono,
    ensures
        spec_step(state, config, now_mono, wall_now).1 == state,
        !config.working_hours.contains_minute(wall_later.minute_of_day as int) ==> spec_evaluate(
            state,
            config,
            later_mono,
            wall_later,
        ) == Decision::Skip(SkipReason::OutsideWorkingHours),
        config.working_hours.contains_minute(wall_later.minute_of_day as int) ==> spec_evaluate(
            state,
            config,
            later_mono,
            wall_later,
        ) == Decision::Fire,
{
}

/// After a fire at `now_mono`, every further evaluation at the same
/// instant skips with `TooSoon`.
proof fn lemma_repeat_too_soon(
    state: TimerState,
    config: ReminderConfig,
    now_mono: i64,
    wall_now: WallTime,
    n: nat,
)
    requires
        config.enabled,
        config.interval_minutes >= 1,
        state.last_fired_mono == Some(now_mono),
    ensures
        spec_run(state, config, now_mono, wall_now, n).len() == n,
        forall|i: int|
            0 <= i < n ==> spec_run(state, config, now_mono, wall_now, n)[i] == Decision::Skip(
                SkipReason::TooSoon,
            ),
    decreases n,
{
    if n > 0 {
        assert(is_too_soon(state, config, now_mono as int));
        lemma_repeat_too_soon(state, config, now_mono, wall_now, (n - 1) as nat);
    }
}

/// At most one fire per due period: of `n` consecutive evaluate-and-
/// transition calls against one due state, made at the same clock
/// readings, exactly the first fires and every later one skips with
/// `TooSoon`.
pub proof fn lemma_one_fire_per_due_period(
    state: TimerState,
    config: ReminderConfig,
    now_mono: i64,
    wall_now: WallTime,
    n: nat,
)
    requires
        config.wf(),
        spec_evaluate(state, config, now_mono as int, wall_now) == Decision::Fire,
        n >= 1,
    ensures
        spec_run(state, config, now_mono, wall_now, n).len() == n,
        spec_run(state, config, now_mono, wall_now, n)[0] == Decision::Fire,
        forall|i: int|
            1 <= i < n ==> spec_run(state, config, now_mono, wall_now, n)[i] == Decision::Skip(
                SkipReason::TooSoon,
            ),
{
    let (d, next) = spec_step(state, config, now_mono, wall_now);
    assert(next.last_fired_mono == Some(now_mono));
    lemma_repeat_too_soon(next, config, now_mono, wall_now, (n - 1) as nat);
    assert forall|i: int| 1 <= i < n implies spec_run(state, config, now_mono, wall_now, n)[i]
        == Decision::Skip(SkipReason::TooSoon) by {
        assert(spec_run(state, config, now_mono, wall_now, n)[i] == spec_run(
            next,
            config,
            now_mono,
            wall_now,
            (n - 1) as nat,
        )[i - 1]);
    }
}

} // verus!
