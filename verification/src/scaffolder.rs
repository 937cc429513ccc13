//! The run of a plan, one step at a time.
//!
//! The scaffolder does not touch the filesystem. It hands out the step that
//! is due; its caller attempts the step and tells how it ended; the
//! scaffolder words the line for the user and moves on. It moves on
//! whatever the outcome was: a step that failed neither stops the run nor
//! changes any step that follows.

use crate::plan::{plan, spec_plan, step_views, Step, StepView};
use crate::report::{report, spec_report, Message, MessageView, Outcome, OutcomeView};
use vstd::prelude::*;

verus! {

/// A run: the steps of its plan and how many of them have been attempted.
pub struct Scaffolder {
    steps: Vec<Step>,
    attempted: usize,
}

/// A run as a mathematical value.
pub struct RunView {
    /// The steps of the run, in order.
    pub steps: Seq<StepView>,
    /// The number of steps that have been attempted.
    pub attempted: nat,
}

impl RunView {
    /// Whether every step has been attempted.
    pub open spec fn is_finished(self) -> bool {
        self.attempted >= self.steps.len()
    }

    /// The step that is due, if the run is not finished.
    pub open spec fn next_step(self) -> Option<StepView> {
        if self.is_finished() {
            None
        } else {
            Some(self.steps[self.attempted as int])
        }
    }

    /// The run once the attempt of the step that was due has ended. The
    /// outcome plays no part in it; a finished run stays as it is.
    pub open spec fn advanced(self) -> RunView {
        if self.is_finished() {
            self
        } else {
            RunView { steps: self.steps, attempted: self.attempted + 1 }
        }
    }

    /// The line about the step that was due, after `outcome`. A finished run
    /// has none.
    pub open spec fn line(self, outcome: OutcomeView) -> Option<MessageView> {
        match self.next_step() {
            Some(step) => Some(spec_report(step, outcome)),
            None => None,
        }
    }

    /// The run once `count` attempts have ended.
    pub open spec fn advanced_by(self, count: nat) -> RunView
        decreases count,
    {
        if count == 0 {
            self
        } else {
            self.advanced_by((count - 1) as nat).advanced()
        }
    }
}

/// The view of a line, if there is one.
pub open spec fn line_view(line: Option<Message>) -> Option<MessageView> {
    match line {
        Some(message) => Some(message@),
        None => None,
    }
}

impl View for Scaffolder {
    type V = RunView;

    closed spec fn view(&self) -> RunView {
        RunView { steps: step_views(self.steps@), attempted: self.attempted as nat }
    }
}

impl Scaffolder {
    /// Starts the run that sets up the project called `project_name`.
    pub fn new(project_name: &str) -> (run: Scaffolder)
        ensures
            run@ == (RunView { steps: spec_plan(project_name@), attempted: 0 }),
    {
        Scaffolder { steps: plan(project_name), attempted: 0 }
    }

    /// Whether every step has been attempted.
    pub fn is_finished(&self) -> (finished: bool)
        ensures
            finished == self@.is_finished(),
    {
        self.attempted >= self.steps.len()
    }

    /// The step that is due, if the run is not finished.
    pub fn next_step(&self) -> (due: Option<&Step>)
        ensures
            self@.next_step() is None ==> due is None,
            self@.next_step() is Some ==> due is Some && due->0@ == self@.next_step()->0,
    {
        if self.attempted < self.steps.len() {
            Some(&self.steps[self.attempted])
        } else {
            None
        }
    }

    /// Takes note that the attempt of the step that was due has ended with
    /// `outcome`, and words the line about it.
    ///
    /// The run then stands at the following step, whatever the outcome. On a
    /// finished run nothing changes and there is no line.
    pub fn record(&mut self, outcome: &Outcome) -> (line: Option<Message>)
        ensures
            final(self)@ == old(self)@.advanced(),
            line_view(line) == old(self)@.line(outcome@),
    {
        if self.attempted < self.steps.len() {
            let line = report(&self.steps[self.attempted], outcome);
            self.attempted = self.attempted + 1;
            Some(line)
        } else {
            None
        }
    }
}

/// A run keeps its steps, and after `count` attempts it stands `count`
/// steps further on, or at its end if it has fewer steps left. No outcome
/// enters into this: a failure holds nothing up.
pub proof fn lemma_advanced_by(run: RunView, count: nat)
    ensures
        run.advanced_by(count).steps == run.steps,
        run.is_finished() ==> run.advanced_by(count) == run,
        run.attempted + count <= run.steps.len() ==> run.advanced_by(count).attempted
            == run.attempted + count,
        !run.is_finished() && run.attempted + count >= run.steps.len() ==> run.advanced_by(
            count,
        ).attempted == run.steps.len(),
    decreases count,
{
    if count > 0 {
        lemma_advanced_by(run, (count - 1) as nat);
    }
}

/// Every step of a project's plan comes up in its turn: after `count`
/// attempts, however they ended, the step that is due is step `count` of the
/// plan, and after seven attempts the run is finished.
pub proof fn lemma_every_step_comes_up(project: Seq<char>, count: nat)
    ensures
        ({
            let start = RunView { steps: spec_plan(project), attempted: 0 };
            &&& count < 7 ==> start.advanced_by(count).next_step() == Some(
                spec_plan(project)[count as int],
            )
            &&& count >= 7 ==> start.advanced_by(count).is_finished()
        }),
{
    let start = RunView { steps: spec_plan(project), attempted: 0 };
    assert(spec_plan(project).len() == 7);
    lemma_advanced_by(start, count);
}

} // verus!
