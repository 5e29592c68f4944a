use gdvgrab::command::{wiring, PipelineSpec, Stage, StageSpec, Stream};
use gdvgrab::outcome::PipelineOutcome;
use gdvgrab::runner::{directive, step, Directive, RunEvent, RunState};
use gdvgrab::status::StageStatus;
use subprocess::{Exec, ExitStatus, Popen, Redirection};

fn status_of(waited: subprocess::Result<ExitStatus>) -> StageStatus {
    match waited {
        Ok(ExitStatus::Exited(code)) => StageStatus::Exited(code),
        Ok(ExitStatus::Signaled(signal)) => StageStatus::Signaled(signal),
        Ok(ExitStatus::Other(raw)) => StageStatus::Other(raw),
        Ok(ExitStatus::Undetermined) | Err(_) => StageStatus::Undetermined,
    }
}

fn launch(stage: &StageSpec, source: Stream, sink: Stream, children: &mut Vec<Popen>) -> RunEvent {
    let mut exec = Exec::cmd(&stage.program).args(&stage.args);
    if source == Stream::Piped {
        match children.last_mut().and_then(|child| child.stdout.take()) {
            Some(pipe) => exec = exec.stdin(pipe),
            None => return RunEvent::LaunchFailed("no pipe to read from".to_string()),
        }
    }
    if sink == Stream::Piped {
        exec = exec.stdout(Redirection::Pipe);
    }
    match exec.popen() {
        Ok(child) => {
            children.push(child);
            RunEvent::Launched
        }
        Err(error) => RunEvent::LaunchFailed(error.to_string()),
    }
}

fn drive(pipeline: &PipelineSpec) -> PipelineOutcome {
    let mut state = RunState::NotStarted;
    let mut children: Vec<Popen> = Vec::new();
    loop {
        let event = match directive(&state) {
            Directive::Begin => RunEvent::Begin,
            Directive::Launch(stage) => {
                let plan = wiring(stage);
                launch(pipeline.stage(stage), plan.stdin, plan.stdout, &mut children)
            }
            Directive::AwaitExit => {
                let b = status_of(children[1].wait());
                let a = status_of(children[0].wait());
                RunEvent::Exited(a, b)
            }
            Directive::Deliver => {
                for child in children.iter_mut() {
                    child.detach();
                }
                match state {
                    RunState::Finished(outcome) => return outcome,
                    other => panic!("told to deliver in state {:?}", other),
                }
            }
        };
        state = step(state, event);
    }
}

fn shell(script: &str) -> StageSpec {
    StageSpec { program: "sh".to_string(), args: vec!["-c".to_string(), script.to_string()] }
}

fn absent() -> StageSpec {
    StageSpec { program: "/nonexistent/capture-tool".to_string(), args: vec![] }
}

#[test]
fn run_with_both_stages_exiting_zero() {
    let pipeline = PipelineSpec { stage_a: shell("exit 0"), stage_b: shell("exit 0") };
    assert_eq!(drive(&pipeline), PipelineOutcome::Success);
}

#[test]
fn run_with_playback_exiting_one() {
    let pipeline = PipelineSpec { stage_a: shell("exit 0"), stage_b: shell("exit 1") };
    assert_eq!(
        drive(&pipeline),
        PipelineOutcome::Failed(StageStatus::Exited(0), StageStatus::Exited(1))
    );
}

#[test]
fn run_with_capture_exiting_three() {
    let pipeline = PipelineSpec { stage_a: shell("exit 3"), stage_b: shell("cat >/dev/null") };
    assert_eq!(
        drive(&pipeline),
        PipelineOutcome::Failed(StageStatus::Exited(3), StageStatus::Exited(0))
    );
}

#[test]
fn run_with_absent_capture_tool() {
    let pipeline = PipelineSpec { stage_a: absent(), stage_b: shell("exit 0") };
    match drive(&pipeline) {
        PipelineOutcome::LaunchError(stage, reason) => {
            assert_eq!(stage, Stage::A);
            assert!(!reason.is_empty());
        }
        other => panic!("unexpected outcome {:?}", other),
    }
}

#[test]
fn run_with_absent_playback_tool() {
    let pipeline = PipelineSpec { stage_a: shell("exit 0"), stage_b: absent() };
    match drive(&pipeline) {
        PipelineOutcome::LaunchError(stage, reason) => {
            assert_eq!(stage, Stage::B);
            assert!(!reason.is_empty());
        }
        other => panic!("unexpected outcome {:?}", other),
    }
}

#[test]
fn run_feeds_output_of_a_to_input_of_b() {
    let pipeline = PipelineSpec {
        stage_a: shell("echo frame"),
        stage_b: shell("read line; test \"$line\" = frame"),
    };
    assert_eq!(drive(&pipeline), PipelineOutcome::Success);
    let pipeline = PipelineSpec {
        stage_a: shell("echo other"),
        stage_b: shell("read line; test \"$line\" = frame"),
    };
    assert_eq!(
        drive(&pipeline),
        PipelineOutcome::Failed(StageStatus::Exited(0), StageStatus::Exited(1))
    );
}

#[test]
fn run_with_playback_ended_by_a_signal() {
    let pipeline = PipelineSpec { stage_a: shell("exit 0"), stage_b: shell("kill -9 $$") };
    assert_eq!(
        drive(&pipeline),
        PipelineOutcome::Failed(StageStatus::Exited(0), StageStatus::Signaled(9))
    );
}
