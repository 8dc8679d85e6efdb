//! The watch loop's decisions: after a sync, build; after a successful build,
//! publish; otherwise wait for the next poll.
use vstd::prelude::*;
use crate::supervisor::RunOutcome;
use crate::sync::SyncOutcome;

verus! {

/// What the watch loop does next in a cycle.
#[derive(Clone, Copy, Debug, PartialEq, Eq, Structural)]
pub enum CycleStep {
    /// Run the build command.
    Build,
    /// Run the publish command.
    Publish,
    /// Sleep for the poll interval, then start the next cycle.
    Sleep,
}

/// After a sync attempt: only pulled changes are built.
pub fn after_sync(outcome: &SyncOutcome) -> (r: CycleStep)
    ensures
        outcome is Pulled ==> r == CycleStep::Build,
        !(outcome is Pulled) ==> r == CycleStep::Sleep,
{
    match outcome {
        SyncOutcome::Pulled => CycleStep::Build,
        _ => CycleStep::Sleep,
    }
}

/// After the build: a successful build is published; a failed one ends the cycle.
pub fn after_build(outcome: &RunOutcome) -> (r: CycleStep)
    ensures
        outcome is Success ==> r == CycleStep::Publish,
        outcome is Failed ==> r == CycleStep::Sleep,
{
    if outcome.is_success() {
        CycleStep::Publish
    } else {
        CycleStep::Sleep
    }
}

/// After the publish, whatever its outcome, the cycle ends.
pub fn after_publish(outcome: &RunOutcome) -> (r: CycleStep)
    ensures
        r == CycleStep::Sleep,
{
    CycleStep::Sleep
}

} // verus!
