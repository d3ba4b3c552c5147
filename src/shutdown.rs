//! The shutdown sequence: the first trigger runs it, later ones do nothing.
use vstd::prelude::*;

verus! {

/// What asked for shutdown.
#[derive(Clone, Copy, Debug, PartialEq, Eq, Structural)]
pub enum Trigger {
    /// The shared flag, set from the control surface.
    Flag,
    /// An interrupt signal from outside the process.
    Interrupt,
}

/// What a trigger leads to.
#[derive(Clone, Copy, Debug, PartialEq, Eq, Structural)]
pub enum FinalStep {
    /// Run the shutdown sequence and stop the running helper once.
    StopHelper,
    /// Run the shutdown sequence; the helper is not running.
    Exit,
    /// The sequence already ran: nothing to do.
    AlreadyDone,
}

/// Remembers whether the shutdown sequence ran, and what started it.
#[derive(Debug)]
pub struct ShutdownCoordinator {
    pub cause: Option<Trigger>,
}

/// The step for a trigger, given whether the sequence already ran.
pub open spec fn spec_step(done: bool, helper_running: bool) -> FinalStep {
    if done {
        FinalStep::AlreadyDone
    } else if helper_running {
        FinalStep::StopHelper
    } else {
        FinalStep::Exit
    }
}

/// How many stops a run of triggers issues, each given whether the helper
/// was running when it fired.
pub open spec fn stops_issued(done: bool, running: Seq<bool>) -> nat
    decreases running.len(),
{
    if running.len() == 0 {
        0
    } else {
        let here: nat = if spec_step(done, running[0]) == FinalStep::StopHelper {
            1
        } else {
            0
        };
        here + stops_issued(true, running.drop_first())
    }
}

impl ShutdownCoordinator {
    pub open spec fn done(&self) -> bool {
        self.cause is Some
    }

    pub fn new() -> (r: ShutdownCoordinator)
        ensures
            !r.done(),
    {
        ShutdownCoordinator { cause: None }
    }

    /// Handles a trigger: the first one runs the sequence, and stops the
    /// helper if it runs; any later one is a no-op.
    pub fn on_trigger(&mut self, trigger: Trigger, helper_running: bool) -> (r: FinalStep)
        ensures
            r == spec_step(old(self).done(), helper_running),
            final(self).done(),
            final(self).cause == (if old(self).done() {
                old(self).cause
            } else {
                Some(trigger)
            }),
    {
        if self.cause.is_some() {
            FinalStep::AlreadyDone
        } else {
            self.cause = Some(trigger);
            if helper_running {
                FinalStep::StopHelper
            } else {
                FinalStep::Exit
            }
        }
    }
}

/// Whatever triggers fire, and in whatever order, at most one stop is
/// issued; none once the sequence has run.
pub proof fn lemma_at_most_one_stop(done: bool, running: Seq<bool>)
    ensures
        stops_issued(done, running) <= 1,
        done ==> stops_issued(done, running) == 0,
    decreases running.len(),
{
    if running.len() > 0 {
        lemma_at_most_one_stop(true, running.drop_first());
    }
}

} // verus!
