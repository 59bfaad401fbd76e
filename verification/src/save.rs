//! From an encoded picture to a file, and from the written file to the
//! outcome that is reported.

use vstd::prelude::*;
use crate::outcome::{outcome_of, Failure, FailureView, Outcome, OutcomeView};

verus! {

/// What is left to do once a frame has been captured and looked at.
#[derive(Clone, Debug, PartialEq, Eq)]
pub enum SaveStep {
    /// Write these bytes to the file at this path, replacing what is there,
    /// and report how the writing went.
    Write { path: String, png: Vec<u8> },
    /// Nothing is to be written; this is the outcome.
    Done(Outcome),
}

/// A `SaveStep` with its path, bytes and texts as sequences.
pub enum SaveStepView {
    Write { path: Seq<char>, png: Seq<u8> },
    Done(OutcomeView),
}

impl View for SaveStep {
    type V = SaveStepView;

    open spec fn view(&self) -> SaveStepView {
        match *self {
            SaveStep::Write { path, png } => SaveStepView::Write { path: path@, png: png@ },
            SaveStep::Done(outcome) => SaveStepView::Done(outcome@),
        }
    }
}

/// The step that follows the encoding: an encoded picture is to be written
/// to `target`, whole and as it is; a failure ends the request with the
/// outcome that reports it.
pub open spec fn save_step(target: Seq<char>, encoded: Result<Seq<u8>, FailureView>) -> SaveStepView {
    match encoded {
        Ok(png) => SaveStepView::Write { path: target, png },
        Err(failure) => SaveStepView::Done(outcome_of(failure)),
    }
}

/// The outcome of a request whose file was to be written at `path`: saved
/// there if the writing went well, a failed save with the writer's reason if
/// it did not.
pub open spec fn write_outcome(path: Seq<char>, written: Result<(), Seq<char>>) -> OutcomeView {
    match written {
        Ok(_) => OutcomeView::Saved(path),
        Err(reason) => outcome_of(FailureView::IoFailed(reason)),
    }
}

/// Decides what follows the encoding of a picture that goes to `target`.
pub fn plan_save(target: String, encoded: Result<Vec<u8>, Failure>) -> (step: SaveStep)
    ensures
        step@ == save_step(
            target@,
            match encoded {
                Ok(png) => Ok(png@),
                Err(failure) => Err(failure@),
            },
        ),
{
    match encoded {
        Ok(png) => SaveStep::Write { path: target, png },
        Err(failure) => SaveStep::Done(failure.outcome()),
    }
}

/// Turns the result of writing the file at `path` into the outcome of the
/// request. An error of the writer is never dropped: it becomes the reason of
/// a failed save.
pub fn written(path: String, result: Result<(), String>) -> (outcome: Outcome)
    ensures
        outcome@ == write_outcome(
            path@,
            match result {
                Ok(_) => Ok(()),
                Err(reason) => Err(reason@),
            },
        ),
{
    match result {
        Ok(_) => Outcome::Saved(path),
        Err(reason) => Failure::IoFailed(reason).outcome(),
    }
}

} // verus!
