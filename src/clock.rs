//! Time of day, as chrono's `NaiveTime` holds it: whole seconds since
//! midnight and a fraction that runs past one second only in a leap second.
use chrono::Timelike;
use vstd::prelude::*;

verus! {

/// Seconds in a day.
pub const SECS_PER_DAY: u32 = 86400;

/// Bound of the fraction: a leap second extends it up to two seconds.
pub const NANOS_BOUND: u32 = 2_000_000_000;

/// A time of day, ordered by seconds, then by fraction.
#[derive(Clone, Copy, Debug, PartialEq, Eq, Structural)]
pub struct TimeOfDay {
    pub secs: u32,
    pub nanos: u32,
}

/// The hour and minute that chrono parses from `s` in the `%H:%M` form.
pub uninterp spec fn parsed_hour_minute(s: Seq<char>) -> Option<(u32, u32)>;

impl TimeOfDay {
    pub open spec fn wf(self) -> bool {
        self.secs < SECS_PER_DAY && self.nanos < NANOS_BOUND
    }

    /// Position on one line: a later time has a larger position.
    pub open spec fn pos(self) -> int {
        self.secs as int * NANOS_BOUND as int + self.nanos as int
    }

    pub open spec fn spec_hour(self) -> int {
        self.secs as int / 3600
    }

    pub open spec fn spec_minute(self) -> int {
        (self.secs as int % 3600) / 60
    }

    /// The time `hour:minute:00`.
    pub fn from_hm(hour: u32, minute: u32) -> (r: TimeOfDay)
        requires
            hour < 24,
            minute < 60,
        ensures
            r.wf(),
            r.secs == hour * 3600 + minute * 60,
            r.nanos == 0,
            r.spec_hour() == hour,
            r.spec_minute() == minute,
    {
        TimeOfDay { secs: hour * 3600 + minute * 60, nanos: 0 }
    }

    /// The time `hour:minute:second` and `nanos` past it.
    pub fn from_hms_nano(hour: u32, minute: u32, second: u32, nanos: u32) -> (r: TimeOfDay)
        requires
            hour < 24,
            minute < 60,
            second < 60,
            nanos < NANOS_BOUND,
        ensures
            r.wf(),
            r.secs == hour * 3600 + minute * 60 + second,
            r.nanos == nanos,
    {
        TimeOfDay { secs: hour * 3600 + minute * 60 + second, nanos }
    }

    pub fn hour(&self) -> (r: u32)
        ensures
            r == self.spec_hour(),
    {
        self.secs / 3600
    }

    pub fn minute(&self) -> (r: u32)
        ensures
            r == self.spec_minute(),
    {
        (self.secs % 3600) / 60
    }

    /// Whether `self` is not later than `other`.
    pub fn le(&self, other: &TimeOfDay) -> (r: bool)
        ensures
            r == (self.secs < other.secs || (self.secs == other.secs && self.nanos <= other.nanos)),
            self.wf() && other.wf() ==> (r == (self.pos() <= other.pos())),
    {
        proof {
            if self.wf() && other.wf() {
                lemma_pos_order(*self, *other);
            }
        }
        self.secs < other.secs || (self.secs == other.secs && self.nanos <= other.nanos)
    }
}

/// The lexicographic order of (seconds, fraction) is the order of positions.
pub proof fn lemma_pos_order(a: TimeOfDay, b: TimeOfDay)
    requires
        a.wf(),
        b.wf(),
    ensures
        (a.pos() <= b.pos()) == (a.secs < b.secs || (a.secs == b.secs && a.nanos <= b.nanos)),
{
    let n = NANOS_BOUND as int;
    if a.secs < b.secs {
        assert(a.secs as int * n + n <= b.secs as int * n) by (nonlinear_arith)
            requires a.secs < b.secs, n > 0;
    } else if a.secs > b.secs {
        assert(b.secs as int * n + n <= a.secs as int * n) by (nonlinear_arith)
            requires a.secs > b.secs, n > 0;
    }
}

/// Relies on chrono's `NaiveTime::parse_from_str` with the format `%H:%M`,
/// and on `Timelike::hour` and `Timelike::minute` of what it parsed: an
/// hour below 24 and a minute below 60, or `None` where parsing fails.
#[verifier::external_body]
pub(crate) fn parse_hour_minute(s: &str) -> (r: Option<(u32, u32)>)
    ensures
        r == parsed_hour_minute(s@),
        r matches Some((h, m)) ==> h < 24 && m < 60,
{
    match chrono::NaiveTime::parse_from_str(s, "%H:%M") {
        Ok(t) => Some((t.hour(), t.minute())),
        Err(_) => None,
    }
}

/// Relies on chrono's `Local::now().time()`, read through
/// `Timelike::num_seconds_from_midnight` (below 86400) and
/// `Timelike::nanosecond` (below two seconds' worth, for a leap second).
#[verifier::external_body]
pub(crate) fn local_time_of_day() -> (r: TimeOfDay)
    ensures
        r.wf(),
{
    let t = chrono::Local::now().time();
    TimeOfDay { secs: t.num_seconds_from_midnight(), nanos: t.nanosecond() }
}

} // verus!
