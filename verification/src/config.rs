//! Reminder configuration: the working-hours window and the user settings
//! that the scheduling engine mirrors.

use vstd::prelude::*;

use crate::clock::MINUTES_PER_DAY;

verus! {

/// A daily time-of-day window gating reminder delivery, in minutes of the
/// day (`0` is midnight, `540` is 09:00). Both endpoints are inside the
/// window. A window with `start > end` spans midnight and means the two
/// ranges `[start, 1440)` and `[0, end]` taken together.
#[derive(Clone, Copy, Debug, PartialEq, Eq, Structural)]
pub struct WorkingHours {
    /// First minute of the day inside the window.
    pub start: u16,
    /// Last minute of the day inside the window.
    pub end: u16,
    /// Whether the window gates reminders at all.
    pub enabled: bool,
}

impl WorkingHours {
    /// Both endpoints are valid minutes of a day.
    pub open spec fn wf(self) -> bool {
        self.start < MINUTES_PER_DAY && self.end < MINUTES_PER_DAY
    }

    /// Whether minute `m` of the day lies inside the window, endpoints
    /// included. A window with `start > end` spans midnight.
    pub open spec fn contains_minute(self, m: int) -> bool {
        if self.start <= self.end {
            self.start <= m && m <= self.end
        } else {
            m >= self.start || (0 <= m && m <= self.end)
        }
    }

    /// Whether `minute` of the day lies inside the window.
    pub fn contains(&self, minute: u16) -> (r: bool)
        ensures
            r == self.contains_minute(minute as int),
    {
        if self.start <= self.end {
            self.start <= minute && minute <= self.end
        } else {
            minute >= self.start || minute <= self.end
        }
    }
}

impl Default for WorkingHours {
    /// The default window: 09:00 to 18:00, enabled.
    fn default() -> (w: Self)
        ensures
            w == (WorkingHours { start: 540, end: 1080, enabled: true }),
            w.wf(),
    {
        WorkingHours { start: 540, end: 1080, enabled: true }
    }
}

/// Both window endpoints count as inside, and with a window that does not
/// span midnight, the minute just before the start and the minute just
/// after the end are outside.
pub proof fn lemma_window_boundaries_inclusive(wh: WorkingHours)
    requires
        wh.wf(),
        wh.start <= wh.end,
    ensures
        wh.contains_minute(wh.start as int),
        wh.contains_minute(wh.end as int),
        !wh.contains_minute(wh.start as int - 1),
        !wh.contains_minute(wh.end as int + 1),
{
}

/// What the scheduling engine reads of the configuration: the minimum
/// period between fires, the master switch, and the working-hours window.
#[derive(Clone, Copy, Debug, PartialEq, Eq, Structural)]
pub struct ReminderConfig {
    /// Minimum period between fires, in whole minutes; always positive.
    pub interval_minutes: u32,
    /// Master on/off switch.
    pub enabled: bool,
    /// Daily window gating delivery.
    pub working_hours: WorkingHours,
}

impl ReminderConfig {
    /// The interval is positive and the window is well formed.
    pub open spec fn wf(self) -> bool {
        self.interval_minutes >= 1 && self.working_hours.wf()
    }
}

impl Default for ReminderConfig {
    /// The default configuration: fire every 30 minutes, enabled, inside
    /// the default working hours.
    fn default() -> (c: Self)
        ensures
            c == (ReminderConfig {
                interval_minutes: 30,
                enabled: true,
                working_hours: WorkingHours { start: 540, end: 1080, enabled: true },
            }),
            c.wf(),
    {
        ReminderConfig { interval_minutes: 30, enabled: true, working_hours: WorkingHours::default() }
    }
}

/// Whether `c` is a decimal digit.
pub open spec fn is_decimal_digit(c: char) -> bool {
    48 <= c as int && c as int <= 57
}

/// The value of a decimal digit character.
pub open spec fn decimal_digit_value(c: char) -> int {
    c as int - 48
}

/// The minute of the day a zero-padded "HH:MM" string denotes, or `None`
/// if the text is not of exactly that form or names no time of day. This
/// is the text form the library writes for a window endpoint; reading
/// only the zero-padded form avoids the ordering pitfalls of free-form
/// times.
pub open spec fn spec_hhmm_minutes(s: Seq<char>) -> Option<int> {
    if s.len() == 5 && is_decimal_digit(s[0]) && is_decimal_digit(s[1]) && s[2] == ':'
        && is_decimal_digit(s[3]) && is_decimal_digit(s[4]) {
        let hour = decimal_digit_value(s[0]) * 10 + decimal_digit_value(s[1]);
        let minute = decimal_digit_value(s[3]) * 10 + decimal_digit_value(s[4]);
        if hour < 24 && minute < 60 {
            Some(hour * 60 + minute)
        } else {
            None
        }
    } else {
        None
    }
}

/// The value of `c` as a decimal digit, or `None` if it is not one.
fn digit_value(c: char) -> (r: Option<u8>)
    ensures
        r matches Some(d) ==> is_decimal_digit(c) && d == decimal_digit_value(c),
        r is None ==> !is_decimal_digit(c),
{
    let v = c as u32;
    if 48 <= v && v <= 57 {
        Some((v - 48) as u8)
    } else {
        None
    }
}

/// The text of one decimal digit.
fn digit_text(d: u16) -> (r: &'static str)
    requires
        d < 10,
    ensures
        r@.len() == 1,
        is_decimal_digit(r@[0]),
        decimal_digit_value(r@[0]) == d as int,
{
    proof {
        reveal_strlit("0");
        reveal_strlit("1");
        reveal_strlit("2");
        reveal_strlit("3");
        reveal_strlit("4");
        reveal_strlit("5");
        reveal_strlit("6");
        reveal_strlit("7");
        reveal_strlit("8");
        reveal_strlit("9");
    }
    match d {
        0 => "0",
        1 => "1",
        2 => "2",
        3 => "3",
        4 => "4",
        5 => "5",
        6 => "6",
        7 => "7",
        8 => "8",
        _ => "9",
    }
}

/// Reads a zero-padded "HH:MM" time of day as a minute of the day.
pub fn parse_minute_of_day(s: &str) -> (r: Option<u16>)
    ensures
        r matches Some(m) ==> spec_hhmm_minutes(s@) == Some(m as int) && m < MINUTES_PER_DAY,
        r is None ==> spec_hhmm_minutes(s@) is None,
{
    if s.unicode_len() != 5 {
        return None;
    }
    if s.get_char(2) != ':' {
        return None;
    }
    let h0 = match digit_value(s.get_char(0)) {
        Some(d) => d,
        None => { return None },
    };
    let h1 = match digit_value(s.get_char(1)) {
        Some(d) => d,
        None => { return None },
    };
    let m0 = match digit_value(s.get_char(3)) {
        Some(d) => d,
        None => { return None },
    };
    let m1 = match digit_value(s.get_char(4)) {
        Some(d) => d,
        None => { return None },
    };
    let hour: u16 = h0 as u16 * 10 + h1 as u16;
    let minute: u16 = m0 as u16 * 10 + m1 as u16;
    if hour < 24 && minute < 60 {
        Some(hour * 60 + minute)
    } else {
        None
    }
}

/// Writes a minute of the day as a zero-padded "HH:MM" time of day; what
/// it writes, `parse_minute_of_day` reads back to the same minute.
pub fn render_minute_of_day(m: u16) -> (r: String)
    requires
        m < MINUTES_PER_DAY,
    ensures
        r@.len() == 5,
        spec_hhmm_minutes(r@) == Some(m as int),
{
    proof {
        reveal_strlit(":");
    }
    let hour = m / 60;
    let minute = m % 60;
    let mut r = String::from_str(digit_text(hour / 10));
    r.append(digit_text(hour % 10));
    r.append(":");
    r.append(digit_text(minute / 10));
    r.append(digit_text(minute % 10));
    r
}

/// The full user settings pushed by the settings collaborator. The engine
/// mirrors `reminder_interval`, `enable_notifications` and `working_hours`;
/// `last_reminder_time` is the persisted wall-clock mirror of the last
/// fire, as an RFC 3339 string.
#[derive(Clone, Debug)]
pub struct UserSettings {
    /// Minutes between reminders; always positive.
    pub reminder_interval: u32,
    /// Minutes one exercise takes.
    pub exercise_duration: u32,
    /// Repetitions per exercise.
    pub repetitions: u32,
    /// Whether to play a sound with a reminder.
    pub enable_sound: bool,
    /// Whether reminders are on; mirrored into the engine's master switch.
    pub enable_notifications: bool,
    /// Display theme name.
    pub theme: String,
    /// Daily window gating reminder delivery.
    pub working_hours: WorkingHours,
    /// Wall-clock time of the last fire, as an RFC 3339 string; `None` if
    /// no fire has been recorded.
    pub last_reminder_time: Option<String>,
}

impl UserSettings {
    /// The interval is positive and the window is well formed.
    pub open spec fn wf(self) -> bool {
        self.reminder_interval >= 1 && self.working_hours.wf()
    }

    /// These settings with the notifications switch set to `on`.
    pub open spec fn with_notifications(self, on: bool) -> UserSettings {
        UserSettings { enable_notifications: on, ..self }
    }

    /// These settings with the persisted last-reminder mirror replaced.
    pub open spec fn with_mirror(self, mirror: Option<String>) -> UserSettings {
        UserSettings { last_reminder_time: mirror, ..self }
    }

    /// An exact copy of these settings.
    pub fn duplicate(&self) -> (r: UserSettings)
        ensures
            r == *self,
    {
        UserSettings {
            reminder_interval: self.reminder_interval,
            exercise_duration: self.exercise_duration,
            repetitions: self.repetitions,
            enable_sound: self.enable_sound,
            enable_notifications: self.enable_notifications,
            theme: self.theme.clone(),
            working_hours: self.working_hours,
            last_reminder_time: match &self.last_reminder_time {
                Some(s) => Some(s.clone()),
                None => None,
            },
        }
    }
}

impl Default for UserSettings {
    /// The default settings: a 30-minute reminder interval, notifications
    /// on, the light theme, and the default working hours.
    fn default() -> (s: Self)
        ensures
            s.reminder_interval == 30,
            s.exercise_duration == 5,
            s.repetitions == 10,
            s.enable_sound,
            s.enable_notifications,
            s.theme@ == "light"@,
            s.working_hours == (WorkingHours { start: 540, end: 1080, enabled: true }),
            s.last_reminder_time is None,
            s.wf(),
    {
        UserSettings {
            reminder_interval: 30,
            exercise_duration: 5,
            repetitions: 10,
            enable_sound: true,
            enable_notifications: true,
            theme: "light".to_owned(),
            working_hours: WorkingHours::default(),
            last_reminder_time: None,
        }
    }
}

} // verus!
