//! The lifecycle of one launched process: it is spawned once, becomes ready
//! or fails, and a ready process is stopped exactly once however often a
//! stop is asked for.

use vstd::prelude::*;

use crate::process::{LaunchState, Process, StopAction};
use crate::readiness::Readiness;

verus! {

/// The state of one launched process of a given kind.
#[derive(Clone, Copy, Debug, PartialEq, Eq, Structural)]
pub struct Lifecycle {
    /// The kind of process.
    pub kind: Process,
    /// Where it stands.
    pub state: LaunchState,
}

/// The state after a look at the starting process gave `verdict`.
pub open spec fn after_verdict(verdict: Readiness) -> LaunchState {
    match verdict {
        Readiness::Pending => LaunchState::Spawned,
        Readiness::Ready => LaunchState::Ready,
        Readiness::Aborted => LaunchState::Failed,
        Readiness::Failed(_) => LaunchState::Failed,
    }
}

/// The lifecycle after a stop is asked for, and what has to be done to the
/// process: a ready process is stopped by its kind's policy; in any other
/// state there is nothing to do.
pub open spec fn stop_step(l: Lifecycle) -> (Lifecycle, StopAction) {
    if l.state == LaunchState::Ready {
        (Lifecycle { kind: l.kind, state: LaunchState::Stopped }, l.kind.spec_stop_policy())
    } else {
        (l, StopAction::Nothing)
    }
}

impl Lifecycle {
    /// A process of kind `kind` that has not been spawned.
    pub fn new(kind: Process) -> (r: Lifecycle)
        ensures
            r.kind == kind,
            r.state == LaunchState::NotStarted,
    {
        Lifecycle { kind, state: LaunchState::NotStarted }
    }

    /// The process was spawned.
    pub fn spawned(&mut self)
        requires
            old(self).state == LaunchState::NotStarted,
        ensures
            final(self).kind == old(self).kind,
            final(self).state == LaunchState::Spawned,
    {
        self.state = LaunchState::Spawned;
    }

    /// A look at the starting process gave `verdict`.
    pub fn record(&mut self, verdict: &Readiness)
        requires
            old(self).state == LaunchState::Spawned,
        ensures
            final(self).kind == old(self).kind,
            final(self).state == after_verdict(*verdict),
    {
        self.state = match verdict {
            Readiness::Pending => LaunchState::Spawned,
            Readiness::Ready => LaunchState::Ready,
            Readiness::Aborted => LaunchState::Failed,
            Readiness::Failed(_) => LaunchState::Failed,
        };
    }

    /// A stop is asked for: returns what has to be done to the process.
    pub fn stop(&mut self) -> (r: StopAction)
        ensures
            (*final(self), r) == stop_step(*old(self)),
    {
        if self.state == LaunchState::Ready {
            self.state = LaunchState::Stopped;
            self.kind.stop_policy()
        } else {
            StopAction::Nothing
        }
    }
}

/// Stopping twice is stopping once: the second stop leaves the lifecycle
/// as the first left it and asks for nothing.
pub proof fn stop_is_idempotent(l: Lifecycle)
    ensures
        stop_step(stop_step(l).0).0 == stop_step(l).0,
        stop_step(stop_step(l).0).1 == StopAction::Nothing,
{
}

} // verus!
