use vstd::prelude::*;

verus! {

/// The tri-state outcome of running a task under cooperative cancellation:
/// it finished its own work, it was cut short by an externally requested
/// shutdown, or it failed with a genuine error.
#[derive(Clone, Copy, Debug, PartialEq, Eq)]
pub enum TaskOutcome {
    Completed,
    Cancelled,
    Failed,
}

/// What the enclosing supervision tree must do once a task has finished.
#[derive(Clone, Copy, Debug, PartialEq, Eq)]
pub enum Escalation {
    RequestShutdown,
    PropagateFailure,
    ExitQuietly,
}

/// The escalation rule: a long-running task that completes on its own
/// invalidates the reason its siblings exist, so the whole tree is asked to
/// shut down; being cancelled by a requested shutdown is not an error; only
/// a genuine failure propagates as a process-level failure (and drives a
/// graceful shutdown with a non-zero exit).
pub open spec fn escalation_of(o: TaskOutcome) -> Escalation {
    match o {
        TaskOutcome::Completed => Escalation::RequestShutdown,
        TaskOutcome::Cancelled => Escalation::ExitQuietly,
        TaskOutcome::Failed => Escalation::PropagateFailure,
    }
}

/// Classify a finished task. Errors are never swallowed: exactly the
/// `Failed` outcome yields `PropagateFailure`.
pub fn escalate(o: TaskOutcome) -> (e: Escalation)
    ensures
        e == escalation_of(o),
        (e == Escalation::PropagateFailure) <==> (o == TaskOutcome::Failed),
{
    match o {
        TaskOutcome::Completed => Escalation::RequestShutdown,
        TaskOutcome::Cancelled => Escalation::ExitQuietly,
        TaskOutcome::Failed => Escalation::PropagateFailure,
    }
}

} // verus!
