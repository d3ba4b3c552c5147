//! Building the schedule from the four configured `HH:MM` values.
use crate::clock::{parse_hour_minute, parsed_hour_minute, TimeOfDay};
use crate::schedule::{Schedule, TimeWindow};
use vstd::prelude::*;

verus! {

/// One of the four configuration entries.
#[derive(Clone, Copy, Debug, PartialEq, Eq, Structural)]
pub enum ConfigKey {
    MorningStart,
    MorningEnd,
    AfternoonStart,
    AfternoonEnd,
}

/// Why no schedule could be built.
#[derive(Clone, Copy, Debug, PartialEq, Eq, Structural)]
pub enum ConfigError {
    /// The entry is absent.
    Missing(ConfigKey),
    /// The entry is not a time in `HH:MM` form.
    InvalidTime(ConfigKey),
}

/// Which end of a window failed to parse.
#[derive(Clone, Copy, Debug, PartialEq, Eq, Structural)]
pub enum WindowEnd {
    Start,
    End,
}

/// The time that `s` denotes in `HH:MM` form, if any.
pub open spec fn time_of(s: Seq<char>) -> Option<TimeOfDay> {
    match parsed_hour_minute(s) {
        Some((h, m)) => Some(TimeOfDay { secs: (h * 3600 + m * 60) as u32, nanos: 0 }),
        None => None,
    }
}

/// The window from two `HH:MM` strings, or the end that did not parse
/// (the start is tried first).
pub open spec fn window_of(start: Seq<char>, end: Seq<char>) -> Result<TimeWindow, WindowEnd> {
    match time_of(start) {
        None => Err(WindowEnd::Start),
        Some(a) => match time_of(end) {
            None => Err(WindowEnd::End),
            Some(b) => Ok(TimeWindow { start: a, end: b }),
        },
    }
}

pub open spec fn opt_view(v: Option<String>) -> Option<Seq<char>> {
    match v {
        Some(s) => Some(s@),
        None => None,
    }
}

/// What the four entries give: the first absent entry, in the order
/// morning start, morning end, afternoon start, afternoon end; else the first
/// entry in that order that is no time; else the two windows.
pub open spec fn schedule_of(
    morning_start: Option<Seq<char>>,
    morning_end: Option<Seq<char>>,
    afternoon_start: Option<Seq<char>>,
    afternoon_end: Option<Seq<char>>,
) -> Result<Seq<TimeWindow>, ConfigError> {
    if morning_start is None {
        Err(ConfigError::Missing(ConfigKey::MorningStart))
    } else if morning_end is None {
        Err(ConfigError::Missing(ConfigKey::MorningEnd))
    } else if afternoon_start is None {
        Err(ConfigError::Missing(ConfigKey::AfternoonStart))
    } else if afternoon_end is None {
        Err(ConfigError::Missing(ConfigKey::AfternoonEnd))
    } else {
        let ms = morning_start->0;
        let me = morning_end->0;
        let a_s = afternoon_start->0;
        let ae = afternoon_end->0;
        match window_of(ms, me) {
            Err(WindowEnd::Start) => Err(ConfigError::InvalidTime(ConfigKey::MorningStart)),
            Err(WindowEnd::End) => Err(ConfigError::InvalidTime(ConfigKey::MorningEnd)),
            Ok(m) => match window_of(a_s, ae) {
                Err(WindowEnd::Start) => Err(ConfigError::InvalidTime(ConfigKey::AfternoonStart)),
                Err(WindowEnd::End) => Err(ConfigError::InvalidTime(ConfigKey::AfternoonEnd)),
                Ok(a) => Ok(seq![m, a]),
            },
        }
    }
}

/// The time of day that `s` gives in 24-hour `HH:MM` form.
pub fn parse_time(s: &str) -> (r: Option<TimeOfDay>)
    ensures
        r == time_of(s@),
        r matches Some(t) ==> t.wf(),
{
    match parse_hour_minute(s) {
        Some((h, m)) => Some(TimeOfDay::from_hm(h, m)),
        None => None,
    }
}

/// The window between two `HH:MM` strings.
pub fn parse_time_range(start: &str, end: &str) -> (r: Result<TimeWindow, WindowEnd>)
    ensures
        r == window_of(start@, end@),
        r matches Ok(w) ==> w.wf(),
{
    let a = match parse_time(start) {
        Some(t) => t,
        None => return Err(WindowEnd::Start),
    };
    let b = match parse_time(end) {
        Some(t) => t,
        None => return Err(WindowEnd::End),
    };
    Ok(TimeWindow::new(a, b))
}

/// The schedule of a morning and an afternoon window, from the four
/// configured entries; any absent or unparsable entry is an error.
pub fn load_schedule(
    morning_start: Option<String>,
    morning_end: Option<String>,
    afternoon_start: Option<String>,
    afternoon_end: Option<String>,
) -> (r: Result<Schedule, ConfigError>)
    ensures
        r matches Ok(s) ==> s.wf(),
        match r {
            Ok(s) => schedule_of(
                opt_view(morning_start),
                opt_view(morning_end),
                opt_view(afternoon_start),
                opt_view(afternoon_end),
            ) == Ok::<Seq<TimeWindow>, ConfigError>(s.windows@),
            Err(e) => schedule_of(
                opt_view(morning_start),
                opt_view(morning_end),
                opt_view(afternoon_start),
                opt_view(afternoon_end),
            ) == Err::<Seq<TimeWindow>, ConfigError>(e),
        },
{
    let ms = match morning_start {
        Some(v) => v,
        None => return Err(ConfigError::Missing(ConfigKey::MorningStart)),
    };
    let me = match morning_end {
        Some(v) => v,
        None => return Err(ConfigError::Missing(ConfigKey::MorningEnd)),
    };
    let a_s = match afternoon_start {
        Some(v) => v,
        None => return Err(ConfigError::Missing(ConfigKey::AfternoonStart)),
    };
    let ae = match afternoon_end {
        Some(v) => v,
        None => return Err(ConfigError::Missing(ConfigKey::AfternoonEnd)),
    };
    let morning = match parse_time_range(ms.as_str(), me.as_str()) {
        Ok(w) => w,
        Err(WindowEnd::Start) => return Err(ConfigError::InvalidTime(ConfigKey::MorningStart)),
        Err(WindowEnd::End) => return Err(ConfigError::InvalidTime(ConfigKey::MorningEnd)),
    };
    let afternoon = match parse_time_range(a_s.as_str(), ae.as_str()) {
        Ok(w) => w,
        Err(WindowEnd::Start) => return Err(ConfigError::InvalidTime(ConfigKey::AfternoonStart)),
        Err(WindowEnd::End) => return Err(ConfigError::InvalidTime(ConfigKey::AfternoonEnd)),
    };
    let s = Schedule::two(morning, afternoon);
    assert(s.windows@[0] == morning && s.windows@[1] == afternoon);
    Ok(s)
}

} // verus!
