use gdvgrab::command::Stage;
use gdvgrab::outcome::PipelineOutcome;
use gdvgrab::runner::{directive, step, Directive, RunEvent, RunState};
use gdvgrab::status::StageStatus;

fn events() -> Vec<RunEvent> {
    vec![
        RunEvent::Begin,
        RunEvent::Launched,
        RunEvent::LaunchFailed("broken".to_string()),
        RunEvent::Exited(StageStatus::Exited(0), StageStatus::Exited(0)),
        RunEvent::Exited(StageStatus::Exited(1), StageStatus::Signaled(9)),
    ]
}

fn same(state: &RunState) -> RunState {
    match state {
        RunState::NotStarted => RunState::NotStarted,
        RunState::LaunchingA => RunState::LaunchingA,
        RunState::LaunchingB => RunState::LaunchingB,
        RunState::Running => RunState::Running,
        RunState::Finished(outcome) => RunState::Finished(outcome.clone()),
    }
}

fn after(reports: Vec<RunEvent>) -> RunState {
    let mut state = RunState::NotStarted;
    for report in reports {
        state = step(state, report);
    }
    state
}

#[test]
fn directives_by_state() {
    assert_eq!(directive(&RunState::NotStarted), Directive::Begin);
    assert_eq!(directive(&RunState::LaunchingA), Directive::Launch(Stage::A));
    assert_eq!(directive(&RunState::LaunchingB), Directive::Launch(Stage::B));
    assert_eq!(directive(&RunState::Running), Directive::AwaitExit);
    assert_eq!(directive(&RunState::Finished(PipelineOutcome::Success)), Directive::Deliver);
    assert_eq!(
        directive(&RunState::Finished(PipelineOutcome::LaunchError(Stage::A, String::new()))),
        Directive::Deliver
    );
}

#[test]
fn states_in_order() {
    assert_eq!(after(vec![]), RunState::NotStarted);
    assert_eq!(after(vec![RunEvent::Begin]), RunState::LaunchingA);
    assert_eq!(after(vec![RunEvent::Begin, RunEvent::Launched]), RunState::LaunchingB);
    assert_eq!(
        after(vec![RunEvent::Begin, RunEvent::Launched, RunEvent::Launched]),
        RunState::Running
    );
}

#[test]
fn missing_capture_tool_is_a_launch_error_of_stage_a() {
    let reason = "No such file or directory (os error 2)";
    let state = after(vec![RunEvent::Begin, RunEvent::LaunchFailed(reason.to_string())]);
    assert_eq!(
        state,
        RunState::Finished(PipelineOutcome::LaunchError(Stage::A, reason.to_string()))
    );
    assert_eq!(directive(&state), Directive::Deliver);
}

#[test]
fn missing_playback_tool_is_a_launch_error_of_stage_b() {
    let reason = "Permission denied (os error 13)";
    let state = after(vec![
        RunEvent::Begin,
        RunEvent::Launched,
        RunEvent::LaunchFailed(reason.to_string()),
    ]);
    assert_eq!(
        state,
        RunState::Finished(PipelineOutcome::LaunchError(Stage::B, reason.to_string()))
    );
    assert_eq!(directive(&state), Directive::Deliver);
}

#[test]
fn both_stages_exit_zero_is_success() {
    let state = after(vec![
        RunEvent::Begin,
        RunEvent::Launched,
        RunEvent::Launched,
        RunEvent::Exited(StageStatus::Exited(0), StageStatus::Exited(0)),
    ]);
    assert_eq!(state, RunState::Finished(PipelineOutcome::Success));
    assert_eq!(state.outcome(), Some(&PipelineOutcome::Success));
}

#[test]
fn playback_exit_one_is_failed_with_both_statuses() {
    let state = after(vec![
        RunEvent::Begin,
        RunEvent::Launched,
        RunEvent::Launched,
        RunEvent::Exited(StageStatus::Exited(0), StageStatus::Exited(1)),
    ]);
    assert_eq!(
        state,
        RunState::Finished(PipelineOutcome::Failed(
            StageStatus::Exited(0),
            StageStatus::Exited(1)
        ))
    );
    match state.outcome() {
        Some(PipelineOutcome::Failed(a, b)) => {
            assert_eq!(*a, StageStatus::Exited(0));
            assert_eq!(*b, StageStatus::Exited(1));
        }
        other => panic!("unexpected outcome {:?}", other),
    }
}

#[test]
fn tools_ended_by_a_signal_are_failed() {
    let state = after(vec![
        RunEvent::Begin,
        RunEvent::Launched,
        RunEvent::Launched,
        RunEvent::Exited(StageStatus::Signaled(13), StageStatus::Signaled(15)),
    ]);
    assert_eq!(
        state,
        RunState::Finished(PipelineOutcome::Failed(
            StageStatus::Signaled(13),
            StageStatus::Signaled(15)
        ))
    );
}

#[test]
fn finished_runs_ignore_every_event() {
    let ends = [
        PipelineOutcome::Success,
        PipelineOutcome::Failed(StageStatus::Exited(1), StageStatus::Exited(0)),
        PipelineOutcome::LaunchError(Stage::A, "gone".to_string()),
        PipelineOutcome::LaunchError(Stage::B, "gone".to_string()),
    ];
    for end in ends {
        for event in events() {
            let next = step(RunState::Finished(end.clone()), event);
            assert_eq!(next, RunState::Finished(end.clone()));
        }
    }
}

#[test]
fn events_out_of_place_change_nothing() {
    let misplaced: Vec<(RunState, Vec<usize>)> = vec![
        (RunState::NotStarted, vec![1, 2, 3, 4]),
        (RunState::LaunchingA, vec![0, 3, 4]),
        (RunState::LaunchingB, vec![0, 3, 4]),
        (RunState::Running, vec![0, 1, 2]),
    ];
    for (state, indices) in misplaced {
        for index in indices {
            let event = events().remove(index);
            assert_eq!(step(same(&state), event), state);
        }
    }
}

#[test]
fn outcome_is_known_only_when_finished() {
    assert_eq!(RunState::NotStarted.outcome(), None);
    assert_eq!(RunState::LaunchingA.outcome(), None);
    assert_eq!(RunState::LaunchingB.outcome(), None);
    assert_eq!(RunState::Running.outcome(), None);
    let failed = PipelineOutcome::Failed(StageStatus::Undetermined, StageStatus::Exited(0));
    assert_eq!(RunState::Finished(failed.clone()).outcome(), Some(&failed));
}

#[test]
fn launch_errors_come_only_from_launching() {
    for state in [RunState::NotStarted, RunState::Running] {
        let next = step(same(&state), RunEvent::LaunchFailed("x".to_string()));
        assert_eq!(next, state);
    }
    for state in [RunState::NotStarted, RunState::LaunchingA, RunState::LaunchingB] {
        let next = step(
            same(&state),
            RunEvent::Exited(StageStatus::Exited(1), StageStatus::Exited(1)),
        );
        assert_eq!(next, state);
    }
}
