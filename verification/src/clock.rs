//! Clock readings as plain values.
//!
//! A wall-clock reading is reduced to the two things the scheduling logic
//! reads from it: seconds since the Unix epoch (for durations and for the
//! persisted mirror) and the minute of the local day (for the working-hours
//! window). A monotonic reading is an `i64` count of seconds from an origin
//! chosen by the caller; it is used only for interval arithmetic, so the
//! origin does not matter.

use vstd::prelude::*;

use chrono::Timelike;

verus! {

/// Minutes in one day; a minute-of-day value is always below this.
pub const MINUTES_PER_DAY: u16 = 1440;

/// Largest epoch-second count the library works with
/// (9999-12-31T23:59:59Z), so that every persisted timestamp has a
/// four-digit-year RFC 3339 rendering.
pub const MAX_EPOCH_SECONDS: i64 = 253402300799;

/// Largest monotonic reading the library works with, in seconds from the
/// caller's origin: ample for any process lifetime, and small enough that
/// interval arithmetic on readings never overflows an `i64`.
pub const MAX_MONO_SECONDS: i64 = 2000000000000;

/// A wall-clock reading, reduced to what the scheduler reads from it.
#[derive(Clone, Copy, Debug)]
pub struct WallTime {
    /// Seconds since the Unix epoch.
    pub epoch_seconds: i64,
    /// Minute of the local day, in `0..1440`.
    pub minute_of_day: u16,
}

impl WallTime {
    /// A well-formed reading: the minute fits in a day and the epoch count
    /// is within the library's supported range.
    pub open spec fn wf(self) -> bool {
        0 <= self.epoch_seconds <= MAX_EPOCH_SECONDS && self.minute_of_day < MINUTES_PER_DAY
    }

    /// Builds a reading from an epoch-second count and an hour and minute of
    /// the local day.
    pub fn new(epoch_seconds: i64, hour: u8, minute: u8) -> (w: WallTime)
        requires
            0 <= epoch_seconds <= MAX_EPOCH_SECONDS,
            hour < 24,
            minute < 60,
        ensures
            w.wf(),
            w.epoch_seconds == epoch_seconds,
            w.minute_of_day == hour * 60 + minute,
    {
        WallTime { epoch_seconds, minute_of_day: hour as u16 * 60 + minute as u16 }
    }
}

/// Relies on chrono's `Local::now` for one wall-clock reading, and on
/// `DateTime::timestamp`, `Timelike::hour` and `Timelike::minute` to read
/// the epoch seconds, the hour (0 to 23) and the minute (0 to 59) of that
/// one value. The reading depends on the system clock, so nothing relates
/// two calls; on a system clock set before the Unix epoch `Local::now`
/// itself does not return.
#[verifier::external_body]
fn now_readings() -> (r: (i64, u32, u32))
    ensures
        r.1 < 24,
        r.2 < 60,
{
    let now = chrono::Local::now();
    (now.timestamp(), now.hour(), now.minute())
}

/// Turns one raw clock reading into the wall time the scheduler works
/// with: a reading whose epoch count lies inside the supported range
/// becomes exactly that `WallTime`, and one outside it — and only such a
/// one — is rejected.
pub fn wall_from_reading(epoch_seconds: i64, hour: u32, minute: u32) -> (r: Option<WallTime>)
    requires
        hour < 24,
        minute < 60,
    ensures
        r is Some <==> 0 <= epoch_seconds <= MAX_EPOCH_SECONDS,
        r matches Some(w) ==> (w.epoch_seconds == epoch_seconds && w.minute_of_day == hour * 60
            + minute && w.wf()),
{
    if epoch_seconds < 0 || epoch_seconds > MAX_EPOCH_SECONDS {
        None
    } else {
        Some(WallTime::new(epoch_seconds, hour as u8, minute as u8))
    }
}

/// Reads the wall clock: epoch seconds for durations and persistence, and
/// the minute of the local day for the working-hours window, all from one
/// reading, handed to `wall_from_reading` — which fixes exactly what
/// comes back for each reading. Returns `None` only when the system clock
/// is outside the library's supported range.
pub fn read_wall_clock() -> (r: Option<WallTime>)
    ensures
        r matches Some(w) ==> w.wf(),
{
    let (epoch, hour, minute) = now_readings();
    wall_from_reading(epoch, hour, minute)
}

} // verus!
