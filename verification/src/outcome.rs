//! What one run of the pipeline came to.

use vstd::prelude::*;
use crate::command::Stage;
use crate::status::StageStatus;

verus! {

/// The outcome of a run, as mathematical data.
pub enum OutcomeModel {
    Success,
    Failed(StageStatus, StageStatus),
    LaunchError(Stage, Seq<char>),
}

/// The outcome of one run of the pipeline.
#[derive(Debug, PartialEq, Eq)]
pub enum PipelineOutcome {
    /// Both stages ran and both ended with exit code zero.
    Success,
    /// Both stages ran and at least one of them did not end with exit code
    /// zero. The status of stage A comes first, that of stage B second.
    Failed(StageStatus, StageStatus),
    /// The named stage could not be started. The text is the reason as the
    /// operating system gave it.
    LaunchError(Stage, String),
}

impl View for PipelineOutcome {
    type V = OutcomeModel;

    open spec fn view(&self) -> OutcomeModel {
        match *self {
            PipelineOutcome::Success => OutcomeModel::Success,
            PipelineOutcome::Failed(a, b) => OutcomeModel::Failed(a, b),
            PipelineOutcome::LaunchError(stage, reason) => OutcomeModel::LaunchError(
                stage,
                reason@,
            ),
        }
    }
}

impl Clone for PipelineOutcome {
    /// The copy is the same outcome.
    fn clone(&self) -> (copy: PipelineOutcome)
        ensures
            copy@ == self@,
    {
        match self {
            PipelineOutcome::Success => PipelineOutcome::Success,
            PipelineOutcome::Failed(a, b) => PipelineOutcome::Failed(*a, *b),
            PipelineOutcome::LaunchError(stage, reason) => PipelineOutcome::LaunchError(
                *stage,
                reason.clone(),
            ),
        }
    }
}

/// The outcome of a run in which both stages were started and ended with the
/// given statuses: success when both succeeded, and otherwise a failure that
/// keeps both statuses as they are.
pub open spec fn reduced(a: StageStatus, b: StageStatus) -> OutcomeModel {
    if a.is_success() && b.is_success() {
        OutcomeModel::Success
    } else {
        OutcomeModel::Failed(a, b)
    }
}

/// Reduces the statuses with which stage A and stage B ended to the outcome
/// of the run.
pub fn reduce(a: StageStatus, b: StageStatus) -> (outcome: PipelineOutcome)
    ensures
        outcome@ == reduced(a, b),
{
    if a.success() && b.success() {
        PipelineOutcome::Success
    } else {
        PipelineOutcome::Failed(a, b)
    }
}

impl PipelineOutcome {
    /// Tells whether the run succeeded.
    pub fn is_success(&self) -> (ok: bool)
        ensures
            ok == (self@ == OutcomeModel::Success),
    {
        match self {
            PipelineOutcome::Success => true,
            _ => false,
        }
    }
}

/// A reduction is a success exactly when both statuses are exit code zero,
/// it is never a launch error, and a failure carries both statuses unchanged.
pub proof fn lemma_reduced_cases(a: StageStatus, b: StageStatus)
    ensures
        reduced(a, b) == OutcomeModel::Success <==> (a == StageStatus::Exited(0) && b
            == StageStatus::Exited(0)),
        !(reduced(a, b) is LaunchError),
        reduced(a, b) != OutcomeModel::Success ==> reduced(a, b) == OutcomeModel::Failed(a, b),
{
}

} // verus!
