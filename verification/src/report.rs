//! What the user is told about a step once it has been attempted.
//!
//! Every attempt yields one line. A step that went through is announced on
//! the output stream; a step that failed is described on the error stream,
//! with the reason that the system gave. Failures are of one kind: nothing
//! is told apart beyond the stage at which a file could not be written.

use crate::plan::{Step, StepView};
use vstd::prelude::*;
use vstd::string::*;

verus! {

/// The stage of a step at which it failed.
#[derive(Debug, Clone, Copy, PartialEq, Eq)]
pub enum Stage {
    /// The directory or the file could not be created.
    Create,
    /// The file was created, but its content could not be written.
    Write,
}

/// How the attempt of a step ended.
#[derive(Debug, Clone, PartialEq, Eq)]
pub enum Outcome {
    /// The step went through.
    Done,
    /// The step failed at `stage`, for the given reason.
    Failed { stage: Stage, reason: String },
}

/// An outcome with its reason as a sequence of characters.
pub enum OutcomeView {
    Done,
    Failed { stage: Stage, reason: Seq<char> },
}

impl View for Outcome {
    type V = OutcomeView;

    open spec fn view(&self) -> OutcomeView {
        match *self {
            Outcome::Done => OutcomeView::Done,
            Outcome::Failed { stage, reason } => OutcomeView::Failed { stage, reason: reason@ },
        }
    }
}

/// Where a line goes.
#[derive(Debug, Clone, Copy, PartialEq, Eq)]
pub enum Stream {
    /// The stream for ordinary output.
    Output,
    /// The stream for errors.
    Error,
}

/// One line for the user, without its line ending.
#[derive(Debug, Clone, PartialEq, Eq)]
pub struct Message {
    pub stream: Stream,
    pub text: String,
}

/// A message with its text as a sequence of characters.
pub struct MessageView {
    pub stream: Stream,
    pub text: Seq<char>,
}

impl View for Message {
    type V = MessageView;

    open spec fn view(&self) -> MessageView {
        MessageView { stream: self.stream, text: self.text@ }
    }
}

/// The words that open the line about `step` after `outcome`.
///
/// A directory is made in one stage, so the stage of its failure is not
/// looked at.
pub open spec fn spec_heading(step: StepView, outcome: OutcomeView) -> Seq<char> {
    match (step, outcome) {
        (StepView::CreateDir { .. }, OutcomeView::Done) => "Created directory: "@,
        (StepView::CreateDir { .. }, OutcomeView::Failed { .. }) => "Failed to create directory "@,
        (StepView::WriteFile { .. }, OutcomeView::Done) => "Created file: "@,
        (StepView::WriteFile { .. }, OutcomeView::Failed { stage: Stage::Create, .. }) => {
            "Failed to create file "@
        },
        (StepView::WriteFile { .. }, OutcomeView::Failed { stage: Stage::Write, .. }) => {
            "Failed to write to file "@
        },
    }
}

/// The line about `step` after `outcome`: the heading and the path, and for
/// a failure a colon, a space and the reason.
pub open spec fn spec_report(step: StepView, outcome: OutcomeView) -> MessageView {
    match outcome {
        OutcomeView::Done => MessageView {
            stream: Stream::Output,
            text: spec_heading(step, outcome) + step.path(),
        },
        OutcomeView::Failed { reason, .. } => MessageView {
            stream: Stream::Error,
            text: spec_heading(step, outcome) + step.path() + ": "@ + reason,
        },
    }
}

/// The words that open the line about `step` after `outcome`.
fn heading(step: &Step, outcome: &Outcome) -> (words: &'static str)
    ensures
        words@ == spec_heading(step@, outcome@),
{
    match step {
        Step::CreateDir { .. } => match outcome {
            Outcome::Done => "Created directory: ",
            Outcome::Failed { .. } => "Failed to create directory ",
        },
        Step::WriteFile { .. } => match outcome {
            Outcome::Done => "Created file: ",
            Outcome::Failed { stage: Stage::Create, .. } => "Failed to create file ",
            Outcome::Failed { stage: Stage::Write, .. } => "Failed to write to file ",
        },
    }
}

/// Words the line that tells the user how the attempt of `step` ended.
pub fn report(step: &Step, outcome: &Outcome) -> (message: Message)
    ensures
        message@ == spec_report(step@, outcome@),
{
    let mut text = String::from_str(heading(step, outcome));
    text.append(step.path());
    match outcome {
        Outcome::Done => Message { stream: Stream::Output, text },
        Outcome::Failed { reason, .. } => {
            text.append(": ");
            text.append(reason.as_str());
            Message { stream: Stream::Error, text }
        },
    }
}

} // verus!
