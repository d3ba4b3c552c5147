//! Daily time windows and membership of a time of day in a schedule.
use crate::clock::TimeOfDay;
use vstd::prelude::*;

verus! {

/// An inclusive time-of-day interval. A window whose start is later than
/// its end holds no time at all: windows do not wrap past midnight.
#[derive(Clone, Copy, Debug, PartialEq, Eq, Structural)]
pub struct TimeWindow {
    pub start: TimeOfDay,
    pub end: TimeOfDay,
}

/// The windows during which the helper should run, in order.
#[derive(Debug)]
pub struct Schedule {
    pub windows: Vec<TimeWindow>,
}

impl TimeWindow {
    pub open spec fn wf(self) -> bool {
        self.start.wf() && self.end.wf()
    }

    pub open spec fn holds(self, now: TimeOfDay) -> bool {
        self.start.pos() <= now.pos() && now.pos() <= self.end.pos()
    }

    pub fn new(start: TimeOfDay, end: TimeOfDay) -> (r: TimeWindow)
        ensures
            r.start == start,
            r.end == end,
    {
        TimeWindow { start, end }
    }

    /// Whether `now` lies in the window, both ends included.
    pub fn contains(&self, now: &TimeOfDay) -> (r: bool)
        requires
            self.wf(),
            now.wf(),
        ensures
            r == self.holds(*now),
    {
        self.start.le(now) && now.le(&self.end)
    }
}

impl Schedule {
    /// At least one window, each of well-formed times.
    pub open spec fn wf(self) -> bool {
        &&& self.windows@.len() > 0
        &&& forall|i: int| 0 <= i < self.windows@.len() ==> (#[trigger] self.windows@[i]).wf()
    }

    pub open spec fn holds(self, now: TimeOfDay) -> bool {
        exists|i: int| 0 <= i < self.windows@.len() && (#[trigger] self.windows@[i]).holds(now)
    }

    /// The schedule of a morning and an afternoon window, in that order.
    pub fn two(morning: TimeWindow, afternoon: TimeWindow) -> (r: Schedule)
        ensures
            r.windows@ == seq![morning, afternoon],
    {
        Schedule { windows: vec![morning, afternoon] }
    }

    /// Whether `now` lies in any window of the schedule.
    pub fn contains(&self, now: &TimeOfDay) -> (r: bool)
        requires
            self.wf(),
            now.wf(),
        ensures
            r == self.holds(*now),
    {
        let mut i: usize = 0;
        while i < self.windows.len()
            invariant
                self.wf(),
                now.wf(),
                0 <= i <= self.windows@.len(),
                forall|j: int| 0 <= j < i ==> !(#[trigger] self.windows@[j]).holds(*now),
            decreases self.windows@.len() - i,
        {
            if self.windows[i].contains(now) {
                return true;
            }
            i = i + 1;
        }
        false
    }
}

pub open spec fn schedule_holds(schedule: Option<Schedule>, now: TimeOfDay) -> bool {
    match schedule {
        Some(s) => s.holds(now),
        None => false,
    }
}

pub open spec fn schedule_wf(schedule: Option<Schedule>) -> bool {
    match schedule {
        Some(s) => s.wf(),
        None => true,
    }
}

/// Whether `now` lies in any window of `schedule`; never when there is none.
pub fn is_within(schedule: &Option<Schedule>, now: &TimeOfDay) -> (r: bool)
    requires
        schedule_wf(*schedule),
        now.wf(),
    ensures
        r == schedule_holds(*schedule, *now),
{
    match schedule {
        Some(s) => s.contains(now),
        None => false,
    }
}

/// A time between a window's ends, both included, lies in the schedule; a
/// time outside every window does not.
pub proof fn lemma_membership(s: Schedule, now: TimeOfDay)
    requires
        s.wf(),
        now.wf(),
    ensures
        forall|i: int|
            0 <= i < s.windows@.len() && (#[trigger] s.windows@[i]).start.pos() <= now.pos()
                <= s.windows@[i].end.pos() ==> schedule_holds(Some(s), now),
        (forall|i: int| 0 <= i < s.windows@.len() ==> !(#[trigger] s.windows@[i]).holds(now))
            ==> !schedule_holds(Some(s), now),
{
    assert forall|i: int|
        0 <= i < s.windows@.len() && (#[trigger] s.windows@[i]).start.pos() <= now.pos()
            <= s.windows@[i].end.pos() implies schedule_holds(Some(s), now) by {
        assert(s.windows@[i].holds(now));
    }
}

/// A window whose start equals its end holds that instant and no other.
pub proof fn lemma_single_instant(w: TimeWindow, now: TimeOfDay)
    requires
        w.wf(),
        now.wf(),
        w.start == w.end,
    ensures
        w.holds(now) <==> now == w.start,
{
    crate::clock::lemma_pos_order(now, w.start);
    crate::clock::lemma_pos_order(w.start, now);
}

/// A window whose start is later than its end holds no time.
pub proof fn lemma_reversed_window_empty(w: TimeWindow, now: TimeOfDay)
    requires
        w.wf(),
        now.wf(),
        w.end.pos() < w.start.pos(),
    ensures
        !w.holds(now),
{
}

} // verus!
