//! What to tell the user about an outcome.

use vstd::prelude::*;
use crate::builder::{CAPTURE_COMMAND, PLAYER_COMMAND};
use crate::command::Stage;
use crate::outcome::{OutcomeModel, PipelineOutcome};

verus! {

/// How serious a notification is.
#[derive(Clone, Copy, Debug, PartialEq, Eq, Structural)]
pub enum Severity {
    /// The run did what was asked.
    Info,
    /// The tools ran, but not to a good end.
    Warning,
    /// A tool could not be started.
    Error,
}

/// A notification, as mathematical data.
pub struct NotificationModel {
    pub severity: Severity,
    pub message: Seq<char>,
}

/// A message for the user, with its severity.
#[derive(Debug, PartialEq, Eq)]
pub struct Notification {
    pub severity: Severity,
    pub message: String,
}

impl View for Notification {
    type V = NotificationModel;

    open spec fn view(&self) -> NotificationModel {
        NotificationModel { severity: self.severity, message: self.message@ }
    }
}

/// The executable that a stage of the capture pipeline runs.
pub open spec fn command_of(stage: Stage) -> Seq<char> {
    match stage {
        Stage::A => CAPTURE_COMMAND@,
        Stage::B => PLAYER_COMMAND@,
    }
}

/// The severity with which an outcome is reported: a success informs, a
/// failure of the tools warns, and a tool that could not be started is an
/// error.
pub open spec fn severity_of(outcome: OutcomeModel) -> Severity {
    match outcome {
        OutcomeModel::Success => Severity::Info,
        OutcomeModel::Failed(_, _) => Severity::Warning,
        OutcomeModel::LaunchError(_, _) => Severity::Error,
    }
}

/// The message with which an outcome is reported. A failure names each tool
/// with the status it ended with, stage A first. A launch error names the
/// tool that could not be started and ends with the reason, unchanged.
pub open spec fn message_of(outcome: OutcomeModel) -> Seq<char> {
    match outcome {
        OutcomeModel::Success => "Ran successfully!"@,
        OutcomeModel::Failed(a, b) => "Ran unsuccessfully! Exit status was: "@ + command_of(
            Stage::A,
        ) + " "@ + a.text() + ", "@ + command_of(Stage::B) + " "@ + b.text(),
        OutcomeModel::LaunchError(stage, reason) => "Failed to run "@ + command_of(stage)
            + "! Error: "@ + reason,
    }
}

/// The notification for an outcome.
pub open spec fn notification_of(outcome: OutcomeModel) -> NotificationModel {
    NotificationModel { severity: severity_of(outcome), message: message_of(outcome) }
}

/// The executable that a stage of the capture pipeline runs.
pub fn command(stage: Stage) -> (name: &'static str)
    ensures
        name@ == command_of(stage),
{
    match stage {
        Stage::A => CAPTURE_COMMAND,
        Stage::B => PLAYER_COMMAND,
    }
}

/// Gives the notification with which `outcome` is reported to the user.
pub fn notify(outcome: &PipelineOutcome) -> (notice: Notification)
    ensures
        notice@ == notification_of(outcome@),
{
    match outcome {
        PipelineOutcome::Success => Notification {
            severity: Severity::Info,
            message: "Ran successfully!".to_owned(),
        },
        PipelineOutcome::Failed(a, b) => {
            let mut message = "Ran unsuccessfully! Exit status was: ".to_owned();
            message.append(command(Stage::A));
            message.append(" ");
            a.append_to(&mut message);
            message.append(", ");
            message.append(command(Stage::B));
            message.append(" ");
            b.append_to(&mut message);
            assert(message@ =~= message_of(outcome@));
            Notification { severity: Severity::Warning, message }
        },
        PipelineOutcome::LaunchError(stage, reason) => {
            let mut message = "Failed to run ".to_owned();
            message.append(command(*stage));
            message.append("! Error: ");
            message.append(reason.as_str());
            assert(message@ =~= message_of(outcome@));
            Notification { severity: Severity::Error, message }
        },
    }
}

/// The severity tells success, failure and launch error apart.
pub proof fn lemma_severity_tells_outcome(outcome: OutcomeModel)
    ensures
        severity_of(outcome) == Severity::Info <==> outcome is Success,
        severity_of(outcome) == Severity::Warning <==> outcome is Failed,
        severity_of(outcome) == Severity::Error <==> outcome is LaunchError,
{
}

/// The message of a launch error ends with the reason exactly as it was
/// reported.
pub proof fn lemma_launch_error_reason_verbatim(stage: Stage, reason: Seq<char>)
    ensures
        ({
            let message = message_of(OutcomeModel::LaunchError(stage, reason));
            &&& message.len() >= reason.len()
            &&& message.subrange(message.len() - reason.len(), message.len() as int) == reason
        }),
{
    let message = message_of(OutcomeModel::LaunchError(stage, reason));
    assert(message.subrange(message.len() - reason.len(), message.len() as int) =~= reason);
}

} // verus!
