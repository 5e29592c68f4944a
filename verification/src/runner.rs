//! The decisions of one pipeline run.
//!
//! A run starts stage A, then stage B, waits for both and reduces their
//! statuses. Starting and waiting are done by a driver outside this library.
//! The driver asks [`directive`] what to do in the current state, does it,
//! and reports what happened to [`step`], which gives the next state.

use vstd::prelude::*;
use crate::command::Stage;
use crate::outcome::{reduce, reduced, OutcomeModel, PipelineOutcome};
use crate::status::StageStatus;

verus! {

/// The state of a run, as mathematical data.
pub enum RunStateModel {
    NotStarted,
    LaunchingA,
    LaunchingB,
    Running,
    Finished(OutcomeModel),
}

/// The state of a run.
#[derive(Debug, PartialEq, Eq)]
pub enum RunState {
    /// Nothing has been done yet.
    NotStarted,
    /// Stage A is being started.
    LaunchingA,
    /// Stage A runs and stage B is being started.
    LaunchingB,
    /// Both stages run.
    Running,
    /// The run is over, with this outcome.
    Finished(PipelineOutcome),
}

impl View for RunState {
    type V = RunStateModel;

    open spec fn view(&self) -> RunStateModel {
        match *self {
            RunState::NotStarted => RunStateModel::NotStarted,
            RunState::LaunchingA => RunStateModel::LaunchingA,
            RunState::LaunchingB => RunStateModel::LaunchingB,
            RunState::Running => RunStateModel::Running,
            RunState::Finished(outcome) => RunStateModel::Finished(outcome@),
        }
    }
}

/// What a driver reports, as mathematical data.
pub enum RunEventModel {
    Begin,
    Launched,
    LaunchFailed(Seq<char>),
    Exited(StageStatus, StageStatus),
}

/// What a driver reports to the run.
#[derive(Debug, PartialEq, Eq)]
pub enum RunEvent {
    /// The run is asked to begin.
    Begin,
    /// The stage that was being started runs.
    Launched,
    /// The stage that was being started could not be started, for this reason.
    LaunchFailed(String),
    /// Both stages have ended: stage A with the first status, stage B with
    /// the second.
    Exited(StageStatus, StageStatus),
}

impl View for RunEvent {
    type V = RunEventModel;

    open spec fn view(&self) -> RunEventModel {
        match *self {
            RunEvent::Begin => RunEventModel::Begin,
            RunEvent::Launched => RunEventModel::Launched,
            RunEvent::LaunchFailed(reason) => RunEventModel::LaunchFailed(reason@),
            RunEvent::Exited(a, b) => RunEventModel::Exited(a, b),
        }
    }
}

/// What a driver has to do next.
#[derive(Clone, Copy, Debug, PartialEq, Eq, Structural)]
pub enum Directive {
    /// Report [`RunEvent::Begin`].
    Begin,
    /// Start the given stage, its streams connected as
    /// [`wiring`](crate::command::wiring) says, and report
    /// [`RunEvent::Launched`] or [`RunEvent::LaunchFailed`].
    Launch(Stage),
    /// Wait until both stages have ended and report [`RunEvent::Exited`].
    AwaitExit,
    /// Hand the outcome to the caller. A stage that still runs is neither
    /// waited for nor stopped.
    Deliver,
}

/// The state that follows `state` when `event` is reported. An event that
/// does not belong to the state leaves the state as it is.
pub open spec fn next_state(state: RunStateModel, event: RunEventModel) -> RunStateModel {
    match (state, event) {
        (RunStateModel::NotStarted, RunEventModel::Begin) => RunStateModel::LaunchingA,
        (RunStateModel::LaunchingA, RunEventModel::Launched) => RunStateModel::LaunchingB,
        (RunStateModel::LaunchingA, RunEventModel::LaunchFailed(reason)) => RunStateModel::Finished(
            OutcomeModel::LaunchError(Stage::A, reason),
        ),
        (RunStateModel::LaunchingB, RunEventModel::Launched) => RunStateModel::Running,
        (RunStateModel::LaunchingB, RunEventModel::LaunchFailed(reason)) => RunStateModel::Finished(
            OutcomeModel::LaunchError(Stage::B, reason),
        ),
        (RunStateModel::Running, RunEventModel::Exited(a, b)) => RunStateModel::Finished(
            reduced(a, b),
        ),
        _ => state,
    }
}

/// What a driver has to do in `state`.
pub open spec fn directive_in(state: RunStateModel) -> Directive {
    match state {
        RunStateModel::NotStarted => Directive::Begin,
        RunStateModel::LaunchingA => Directive::Launch(Stage::A),
        RunStateModel::LaunchingB => Directive::Launch(Stage::B),
        RunStateModel::Running => Directive::AwaitExit,
        RunStateModel::Finished(_) => Directive::Deliver,
    }
}

/// Gives the state that follows `state` when `event` is reported.
pub fn step(state: RunState, event: RunEvent) -> (next: RunState)
    ensures
        next@ == next_state(state@, event@),
{
    match (state, event) {
        (RunState::NotStarted, RunEvent::Begin) => RunState::LaunchingA,
        (RunState::LaunchingA, RunEvent::Launched) => RunState::LaunchingB,
        (RunState::LaunchingA, RunEvent::LaunchFailed(reason)) => RunState::Finished(
            PipelineOutcome::LaunchError(Stage::A, reason),
        ),
        (RunState::LaunchingB, RunEvent::Launched) => RunState::Running,
        (RunState::LaunchingB, RunEvent::LaunchFailed(reason)) => RunState::Finished(
            PipelineOutcome::LaunchError(Stage::B, reason),
        ),
        (RunState::Running, RunEvent::Exited(a, b)) => RunState::Finished(reduce(a, b)),
        (state, _) => state,
    }
}

/// Tells a driver what to do in `state`.
pub fn directive(state: &RunState) -> (todo: Directive)
    ensures
        todo == directive_in(state@),
{
    match state {
        RunState::NotStarted => Directive::Begin,
        RunState::LaunchingA => Directive::Launch(Stage::A),
        RunState::LaunchingB => Directive::Launch(Stage::B),
        RunState::Running => Directive::AwaitExit,
        RunState::Finished(_) => Directive::Deliver,
    }
}

impl RunState {
    /// The outcome of the run, once it is over.
    pub fn outcome(&self) -> (outcome: Option<&PipelineOutcome>)
        ensures
            match outcome {
                Some(found) => self@ == RunStateModel::Finished(found@),
                None => !(self@ is Finished),
            },
    {
        match self {
            RunState::Finished(outcome) => Some(outcome),
            _ => None,
        }
    }
}

/// The state reached from `state` when the events of `events` are reported
/// one after the other.
pub open spec fn state_after(state: RunStateModel, events: Seq<RunEventModel>) -> RunStateModel
    decreases events.len(),
{
    if events.len() == 0 {
        state
    } else {
        next_state(state_after(state, events.drop_last()), events.last())
    }
}

/// How far a run has come: a number that grows from state to state.
pub open spec fn progress(state: RunStateModel) -> nat {
    match state {
        RunStateModel::NotStarted => 0,
        RunStateModel::LaunchingA => 1,
        RunStateModel::LaunchingB => 2,
        RunStateModel::Running => 3,
        RunStateModel::Finished(_) => 4,
    }
}

/// A finished run stays as it is: no event changes its outcome.
pub proof fn lemma_finished_is_terminal(state: RunStateModel, event: RunEventModel)
    requires
        state is Finished,
    ensures
        next_state(state, event) == state,
{
}

/// A finished run stays as it is whatever is reported afterwards, and
/// however much of it.
pub proof fn lemma_finished_stays_finished(state: RunStateModel, events: Seq<RunEventModel>)
    requires
        state is Finished,
    ensures
        state_after(state, events) == state,
    decreases events.len(),
{
    if events.len() > 0 {
        lemma_finished_stays_finished(state, events.drop_last());
    }
}

/// A run never goes back, and a step that changes the state either moves to
/// the state that comes next in order or ends the run.
pub proof fn lemma_step_order(state: RunStateModel, event: RunEventModel)
    ensures
        progress(state) <= progress(next_state(state, event)),
        next_state(state, event) != state ==> progress(state) < progress(
            next_state(state, event),
        ),
        next_state(state, event) != state ==> (progress(next_state(state, event)) == progress(state)
            + 1 || next_state(state, event) is Finished),
{
}

/// A run ends in a launch error only from the state in which a stage was
/// being started, on the report that this stage could not be started. The
/// outcome names that stage and carries the reported reason unchanged.
pub proof fn lemma_launch_error_origin(state: RunStateModel, event: RunEventModel)
    requires
        !(state is Finished),
        next_state(state, event) matches RunStateModel::Finished(outcome) && outcome is LaunchError,
    ensures
        state is LaunchingA || state is LaunchingB,
        event is LaunchFailed,
        next_state(state, event) == RunStateModel::Finished(
            OutcomeModel::LaunchError(
                if state is LaunchingA {
                    Stage::A
                } else {
                    Stage::B
                },
                event->LaunchFailed_0,
            ),
        ),
{
}

/// A run ends in success or in failure only from the state in which both
/// stages run, on the report that both have ended, and the outcome is the
/// reduction of the two reported statuses.
pub proof fn lemma_exit_outcome_origin(state: RunStateModel, event: RunEventModel)
    requires
        !(state is Finished),
        next_state(state, event) matches RunStateModel::Finished(outcome) && !(outcome
            is LaunchError),
    ensures
        state is Running,
        event matches RunEventModel::Exited(a, b) && next_state(state, event)
            == RunStateModel::Finished(reduced(a, b)),
{
}

/// A stage that cannot be started ends the run at once: the next directive
/// is to deliver the launch error, and never to wait.
pub proof fn lemma_launch_failure_ends_run(state: RunStateModel, reason: Seq<char>)
    requires
        state is LaunchingA || state is LaunchingB,
    ensures
        directive_in(next_state(state, RunEventModel::LaunchFailed(reason))) == Directive::Deliver,
        state is LaunchingA ==> next_state(state, RunEventModel::LaunchFailed(reason))
            == RunStateModel::Finished(OutcomeModel::LaunchError(Stage::A, reason)),
        state is LaunchingB ==> next_state(state, RunEventModel::LaunchFailed(reason))
            == RunStateModel::Finished(OutcomeModel::LaunchError(Stage::B, reason)),
{
}

/// A driver is told to wait only while both stages run.
pub proof fn lemma_waits_only_while_running(state: RunStateModel)
    ensures
        directive_in(state) == Directive::AwaitExit <==> state is Running,
        directive_in(state) == Directive::Deliver <==> state is Finished,
{
}

/// A run in which the capture tool cannot be started ends after two reports
/// in a launch error that names stage A.
pub proof fn lemma_run_without_capture_tool(reason: Seq<char>)
    ensures
        state_after(
            RunStateModel::NotStarted,
            seq![RunEventModel::Begin, RunEventModel::LaunchFailed(reason)],
        ) == RunStateModel::Finished(OutcomeModel::LaunchError(Stage::A, reason)),
{
    let events = seq![RunEventModel::Begin, RunEventModel::LaunchFailed(reason)];
    assert(events.drop_last() =~= seq![RunEventModel::Begin]);
    assert(events.drop_last().drop_last() =~= Seq::<RunEventModel>::empty());
    reveal_with_fuel(state_after, 3);
}

/// A run in which the playback tool cannot be started ends after three
/// reports in a launch error that names stage B.
pub proof fn lemma_run_without_playback_tool(reason: Seq<char>)
    ensures
        state_after(
            RunStateModel::NotStarted,
            seq![RunEventModel::Begin, RunEventModel::Launched, RunEventModel::LaunchFailed(reason)],
        ) == RunStateModel::Finished(OutcomeModel::LaunchError(Stage::B, reason)),
{
    let events = seq![
        RunEventModel::Begin,
        RunEventModel::Launched,
        RunEventModel::LaunchFailed(reason),
    ];
    assert(events.drop_last() =~= seq![RunEventModel::Begin, RunEventModel::Launched]);
    assert(events.drop_last().drop_last() =~= seq![RunEventModel::Begin]);
    assert(events.drop_last().drop_last().drop_last() =~= Seq::<RunEventModel>::empty());
    reveal_with_fuel(state_after, 4);
}

/// A run in which both stages start ends, once both have ended, in the
/// reduction of their statuses.
pub proof fn lemma_complete_run(a: StageStatus, b: StageStatus)
    ensures
        state_after(
            RunStateModel::NotStarted,
            seq![
                RunEventModel::Begin,
                RunEventModel::Launched,
                RunEventModel::Launched,
                RunEventModel::Exited(a, b),
            ],
        ) == RunStateModel::Finished(reduced(a, b)),
{
    let events = seq![
        RunEventModel::Begin,
        RunEventModel::Launched,
        RunEventModel::Launched,
        RunEventModel::Exited(a, b),
    ];
    let three = seq![RunEventModel::Begin, RunEventModel::Launched, RunEventModel::Launched];
    let two = seq![RunEventModel::Begin, RunEventModel::Launched];
    let one = seq![RunEventModel::Begin];
    assert(events.drop_last() =~= three);
    assert(three.drop_last() =~= two);
    assert(two.drop_last() =~= one);
    assert(one.drop_last() =~= Seq::<RunEventModel>::empty());
    reveal_with_fuel(state_after, 5);
}

} // verus!
