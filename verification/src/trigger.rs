//! The recurring trigger that fires the pipeline once per period.
//!
//! The schedule itself (a five-field cron expression, daily at midnight UTC
//! by default) is honored by the hosting scheduler; this module keeps the
//! trigger's own state — idle, or in the middle of a run — so that a firing
//! marks the run it starts and the run it finishes.

use vstd::prelude::*;

verus! {

/// Whether a scheduled run is in flight.
#[derive(Clone, Copy, PartialEq, Eq, Structural, Debug)]
pub enum TriggerState {
    Idle,
    Running,
}

/// A recurring schedule plus the state of the run it drives. A new run may
/// begin only when the previous one has finished; the period is assumed to be
/// far longer than one run.
#[derive(Debug)]
pub struct PipelineTrigger {
    schedule: String,
    state: TriggerState,
}

impl PipelineTrigger {
    /// The cron expression this trigger was configured with.
    pub closed spec fn schedule_spec(&self) -> Seq<char> {
        self.schedule@
    }

    /// The trigger's run state.
    pub closed spec fn state_spec(&self) -> TriggerState {
        self.state
    }

    /// A trigger for `schedule`, idle until its first firing.
    pub fn new(schedule: String) -> (t: Self)
        ensures
            t.schedule_spec() == schedule@,
            t.state_spec() == TriggerState::Idle,
    {
        PipelineTrigger { schedule, state: TriggerState::Idle }
    }

    /// Marks the start of a firing's run.
    pub fn begin_run(&mut self)
        requires
            old(self).state_spec() == TriggerState::Idle,
        ensures
            final(self).state_spec() == TriggerState::Running,
            final(self).schedule_spec() == old(self).schedule_spec(),
    {
        self.state = TriggerState::Running;
    }

    /// Marks the end of the run; the trigger is ready for the next period.
    pub fn finish_run(&mut self)
        requires
            old(self).state_spec() == TriggerState::Running,
        ensures
            final(self).state_spec() == TriggerState::Idle,
            final(self).schedule_spec() == old(self).schedule_spec(),
    {
        self.state = TriggerState::Idle;
    }

    /// Whether a new firing may begin a run now.
    pub fn is_idle(&self) -> (b: bool)
        ensures
            b == (self.state_spec() == TriggerState::Idle),
    {
        match self.state {
            TriggerState::Idle => true,
            TriggerState::Running => false,
        }
    }

    /// The configured cron expression.
    pub fn schedule(&self) -> (s: &String)
        ensures
            s@ == self.schedule_spec(),
    {
        &self.schedule
    }
}

/// The default schedule: once daily at midnight UTC.
pub fn default_schedule() -> (s: String)
    ensures
        s@ == "0 0 * * *"@,
{
    String::from_str("0 0 * * *")
}

} // verus!
