//! The scheduler loop's decisions, and the cadence of its wake-ups.
use crate::shutdown::Trigger;
use vstd::prelude::*;

verus! {

/// How often the helper's state is reconciled, in milliseconds.
pub const CHECK_PERIOD_MS: u64 = 600_000;

/// How often the shutdown flag is polled, in milliseconds.
pub const POLL_PERIOD_MS: u64 = 100;

/// Why the scheduler loop woke.
#[derive(Clone, Copy, Debug, PartialEq, Eq, Structural)]
pub enum Wake {
    /// The reconciliation period elapsed.
    CheckTimer,
    /// The shutdown poll period elapsed.
    ExitPoll,
    /// An interrupt signal arrived.
    Interrupt,
}

/// What the loop does after a wake-up.
#[derive(Clone, Copy, Debug, PartialEq, Eq, Structural)]
pub enum LoopStep {
    /// Run one reconciliation cycle.
    Reconcile,
    /// Sleep until the next wake-up.
    Wait,
    /// Leave the loop and run the shutdown sequence.
    Shutdown(Trigger),
}

pub open spec fn spec_on_wake(wake: Wake, shutdown_requested: bool) -> LoopStep {
    match wake {
        Wake::Interrupt => LoopStep::Shutdown(Trigger::Interrupt),
        Wake::CheckTimer => if shutdown_requested {
            LoopStep::Shutdown(Trigger::Flag)
        } else {
            LoopStep::Reconcile
        },
        Wake::ExitPoll => if shutdown_requested {
            LoopStep::Shutdown(Trigger::Flag)
        } else {
            LoopStep::Wait
        },
    }
}

/// The loop's decision on a wake-up, given the shared shutdown flag.
pub fn on_wake(wake: Wake, shutdown_requested: bool) -> (r: LoopStep)
    ensures
        r == spec_on_wake(wake, shutdown_requested),
{
    match wake {
        Wake::Interrupt => LoopStep::Shutdown(Trigger::Interrupt),
        Wake::CheckTimer => {
            if shutdown_requested {
                LoopStep::Shutdown(Trigger::Flag)
            } else {
                LoopStep::Reconcile
            }
        },
        Wake::ExitPoll => {
            if shutdown_requested {
                LoopStep::Shutdown(Trigger::Flag)
            } else {
                LoopStep::Wait
            }
        },
    }
}

/// Two periodic timers on one clock: the time of the last wake-up and
/// when each timer next fires.
#[derive(Clone, Copy, Debug)]
pub struct Cadence {
    pub check_period: u64,
    pub poll_period: u64,
    pub now: u64,
    pub next_check: u64,
    pub next_poll: u64,
}

impl Cadence {
    pub open spec fn wf(self) -> bool {
        &&& 0 < self.check_period
        &&& 0 < self.poll_period
        &&& self.now <= self.next_check <= self.now + self.check_period
        &&& self.now <= self.next_poll <= self.now + self.poll_period
    }

    pub open spec fn next_wake_time(self) -> u64 {
        if self.next_check <= self.next_poll {
            self.next_check
        } else {
            self.next_poll
        }
    }

    pub open spec fn next_wake_kind(self) -> Wake {
        if self.next_check <= self.next_poll {
            Wake::CheckTimer
        } else {
            Wake::ExitPoll
        }
    }

    /// Timers that start at `start`, right after the first check.
    pub fn new(start: u64, check_period: u64, poll_period: u64) -> (r: Cadence)
        requires
            0 < check_period,
            0 < poll_period,
            start + check_period <= u64::MAX,
            start + poll_period <= u64::MAX,
        ensures
            r.wf(),
            r.now == start,
            r.check_period == check_period,
            r.poll_period == poll_period,
            r.next_check == start + check_period,
            r.next_poll == start + poll_period,
    {
        Cadence {
            check_period,
            poll_period,
            now: start,
            next_check: start + check_period,
            next_poll: start + poll_period,
        }
    }

    /// Moves the clock to the earlier timer, which fires (the check timer on
    /// a tie) and is set one period later.
    pub fn advance(&mut self) -> (r: Wake)
        requires
            old(self).wf(),
            old(self).next_check + old(self).check_period <= u64::MAX,
            old(self).next_poll + old(self).poll_period <= u64::MAX,
        ensures
            final(self).wf(),
            r == old(self).next_wake_kind(),
            final(self).now == old(self).next_wake_time(),
            final(self).check_period == old(self).check_period,
            final(self).poll_period == old(self).poll_period,
            r == Wake::CheckTimer ==> final(self).next_check == old(self).next_check
                + old(self).check_period && final(self).next_poll == old(self).next_poll,
            r == Wake::ExitPoll ==> final(self).next_poll == old(self).next_poll
                + old(self).poll_period && final(self).next_check == old(self).next_check,
    {
        if self.next_check <= self.next_poll {
            self.now = self.next_check;
            self.next_check = self.next_check + self.check_period;
            Wake::CheckTimer
        } else {
            self.now = self.next_poll;
            self.next_poll = self.next_poll + self.poll_period;
            Wake::ExitPoll
        }
    }
}

/// A shutdown request made at `set_at`, after the last wake-up and before
/// the next, is acted on at the next wake-up, which comes within one poll
/// period of the request.
pub proof fn lemma_shutdown_seen_within_poll(c: Cadence, set_at: u64)
    requires
        c.wf(),
        c.now <= set_at < c.next_wake_time(),
    ensures
        c.next_wake_time() <= set_at + c.poll_period,
        spec_on_wake(c.next_wake_kind(), true) == LoopStep::Shutdown(Trigger::Flag),
{
}

} // verus!
