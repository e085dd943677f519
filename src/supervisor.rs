//! The presence supervisor: arms emulation while the target application is
//! absent and disarms it once the application appears.
use vstd::prelude::*;

verus! {

/// What the supervisor's polling loop must do after one observation.
#[derive(Clone, Copy, PartialEq, Eq, Debug, Structural)]
pub enum SupervisorAction {
    /// Spawn a fresh emulation run and keep its cancellation handle.
    StartEngine,
    /// Signal cancellation on the kept handle and drop it. The run may have
    /// ended already; the signal is then a harmless no-op.
    CancelEngine,
    /// Nothing to do.
    Nothing,
}

/// The supervisor's presence state: whether an emulation run is armed.
#[derive(Clone, Copy, PartialEq, Eq, Debug, Structural)]
pub struct Supervisor {
    pub active: bool,
}

/// The action for one observation of the process table.
pub open spec fn action_for(active: bool, target_running: bool) -> SupervisorAction {
    if !active && !target_running {
        SupervisorAction::StartEngine
    } else if active && target_running {
        SupervisorAction::CancelEngine
    } else {
        SupervisorAction::Nothing
    }
}

/// The presence state after one observation of the process table.
pub open spec fn active_after(active: bool, target_running: bool) -> bool {
    !target_running
}

impl Supervisor {
    /// A supervisor with no emulation run.
    pub fn new() -> (r: Supervisor)
        ensures
            !r.active,
    {
        Supervisor { active: false }
    }

    /// Records one observation of whether the target application is running
    /// and says what to do about it.
    pub fn observe(&mut self, target_running: bool) -> (a: SupervisorAction)
        ensures
            a == action_for(old(self).active, target_running),
            final(self).active == active_after(old(self).active, target_running),
    {
        if !self.active && !target_running {
            self.active = true;
            SupervisorAction::StartEngine
        } else if self.active && target_running {
            self.active = false;
            SupervisorAction::CancelEngine
        } else {
            SupervisorAction::Nothing
        }
    }
}

/// The change in the number of armed runs that an action makes.
pub open spec fn run_delta(a: SupervisorAction) -> int {
    match a {
        SupervisorAction::StartEngine => 1,
        SupervisorAction::CancelEngine => -1,
        SupervisorAction::Nothing => 0,
    }
}

/// A supervisor that starts with no run and observes `observations` in order:
/// its presence state at the end, and the number of runs it started minus the
/// number it cancelled.
pub open spec fn supervise(observations: Seq<bool>) -> (bool, int)
    decreases observations.len(),
{
    if observations.len() == 0 {
        (false, 0)
    } else {
        let prev = supervise(observations.drop_last());
        let seen = observations.last();
        (active_after(prev.0, seen), prev.1 + run_delta(action_for(prev.0, seen)))
    }
}

/// Whatever the observations, at most one run is armed at a time, and one is
/// armed exactly when the presence state says so: a run is only started when
/// none is armed, and only cancelled when one is.
pub proof fn lemma_one_run_at_a_time(observations: Seq<bool>)
    ensures
        supervise(observations).1 == if supervise(observations).0 { 1int } else { 0int },
        0 <= supervise(observations).1 <= 1,
    decreases observations.len(),
{
    if observations.len() > 0 {
        lemma_one_run_at_a_time(observations.drop_last());
    }
}

} // verus!
