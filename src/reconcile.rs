//! The reconciliation table: desired state against observed state.
use crate::clock::TimeOfDay;
use crate::schedule::{is_within, schedule_holds, schedule_wf, Schedule};
use vstd::prelude::*;

verus! {

/// What one reconciliation cycle does to the helper.
#[derive(Clone, Copy, Debug, PartialEq, Eq, Structural)]
pub enum Action {
    Start,
    Stop,
    Nothing,
}

/// The table of desired state against observed state.
pub open spec fn spec_action(should_run: bool, is_running: bool) -> Action {
    if should_run && !is_running {
        Action::Start
    } else if !should_run && is_running {
        Action::Stop
    } else {
        Action::Nothing
    }
}

/// Whether the helper runs once `action` has been carried out.
pub open spec fn running_after(action: Action, is_running: bool) -> bool {
    match action {
        Action::Start => true,
        Action::Stop => false,
        Action::Nothing => is_running,
    }
}

/// The action for one cycle: start a helper that should run and does not,
/// stop one that runs and should not, else nothing.
pub fn desired_action(should_run: bool, is_running: bool) -> (r: Action)
    ensures
        r == spec_action(should_run, is_running),
{
    match (should_run, is_running) {
        (true, false) => Action::Start,
        (false, true) => Action::Stop,
        (true, true) => Action::Nothing,
        (false, false) => Action::Nothing,
    }
}

/// The action for a cycle at `now`, given whether the helper runs.
pub fn plan_check(schedule: &Option<Schedule>, now: &TimeOfDay, is_running: bool) -> (r: Action)
    requires
        schedule_wf(*schedule),
        now.wf(),
    ensures
        r == spec_action(schedule_holds(*schedule, *now), is_running),
{
    let should_run = is_within(schedule, now);
    desired_action(should_run, is_running)
}

/// Each of the four combinations gives exactly one action: start only when
/// the helper should run and does not, stop only when it runs and should not.
pub proof fn lemma_action_table(should_run: bool, is_running: bool)
    ensures
        (spec_action(should_run, is_running) == Action::Start) <==> (should_run && !is_running),
        (spec_action(should_run, is_running) == Action::Stop) <==> (!should_run && is_running),
        (spec_action(should_run, is_running) == Action::Nothing) <==> (should_run == is_running),
        running_after(spec_action(should_run, is_running), is_running) == should_run,
{
}

/// A second cycle right after the first, with no outside change to the
/// helper and the same time, does nothing.
pub proof fn lemma_reconcile_idempotent(schedule: Option<Schedule>, now: TimeOfDay, is_running: bool)
    ensures
        spec_action(
            schedule_holds(schedule, now),
            running_after(spec_action(schedule_holds(schedule, now), is_running), is_running),
        ) == Action::Nothing,
{
}

} // verus!
