//! The state that the scheduler loop and the control surface share.
use crate::clock::{local_time_of_day, TimeOfDay};
use crate::reconcile::{plan_check, spec_action, Action};
use crate::schedule::{schedule_holds, schedule_wf, Schedule};
use vstd::prelude::*;

verus! {

/// The active schedule and whether shutdown has been asked for. Once set,
/// the request is never withdrawn.
#[derive(Debug)]
pub struct ReconciliationState {
    schedule: Option<Schedule>,
    shutdown_requested: bool,
}

impl ReconciliationState {
    pub closed spec fn spec_schedule(&self) -> Option<Schedule> {
        self.schedule
    }

    pub closed spec fn spec_shutdown_requested(&self) -> bool {
        self.shutdown_requested
    }

    pub open spec fn wf(&self) -> bool {
        schedule_wf(self.spec_schedule())
    }

    /// The state at process start: no schedule, no shutdown request.
    pub fn new() -> (r: ReconciliationState)
        ensures
            r.wf(),
            r.spec_schedule() is None,
            !r.spec_shutdown_requested(),
    {
        ReconciliationState { schedule: None, shutdown_requested: false }
    }

    /// Installs the schedule that the checks follow; this is done once, at
    /// startup.
    pub fn install_schedule(&mut self, schedule: Schedule)
        requires
            old(self).spec_schedule() is None,
            schedule.wf(),
        ensures
            final(self).wf(),
            final(self).spec_schedule() == Some(schedule),
            final(self).spec_shutdown_requested() == old(self).spec_shutdown_requested(),
    {
        self.schedule = Some(schedule);
    }

    /// Asks for shutdown; asking again changes nothing.
    pub fn request_shutdown(&mut self)
        ensures
            final(self).spec_shutdown_requested(),
            final(self).spec_schedule() == old(self).spec_schedule(),
    {
        self.shutdown_requested = true;
    }

    pub fn is_shutdown_requested(&self) -> (r: bool)
        ensures
            r == self.spec_shutdown_requested(),
    {
        self.shutdown_requested
    }

    pub fn schedule(&self) -> (r: &Option<Schedule>)
        ensures
            *r == self.spec_schedule(),
    {
        &self.schedule
    }

    /// The action for a check at `now`, given whether the helper runs.
    pub fn action_at(&self, now: &TimeOfDay, is_running: bool) -> (r: Action)
        requires
            self.wf(),
            now.wf(),
        ensures
            r == spec_action(schedule_holds(self.spec_schedule(), *now), is_running),
    {
        plan_check(&self.schedule, now, is_running)
    }

    /// The action for a check at the current local time of day.
    pub fn check_now(&self, is_running: bool) -> (r: Action)
        requires
            self.wf(),
        ensures
            exists|now: TimeOfDay|
                now.wf() && r == spec_action(schedule_holds(self.spec_schedule(), now), is_running),
    {
        let now = local_time_of_day();
        self.action_at(&now, is_running)
    }
}

} // verus!
