//! What can go wrong between a button press and a saved file, what the user
//! is told in the end, and in which words.

use vstd::prelude::*;
use vstd::string::*;

verus! {

/// Why a capture did not end in a saved file.
#[derive(Clone, Debug, PartialEq, Eq)]
pub enum Failure {
    /// There is no display to capture.
    NoDisplayAvailable,
    /// The display could not be read; the text says why.
    CaptureFailed(String),
    /// The frame's byte count is not width x height x 4.
    BufferShapeMismatch,
    /// The picture could not be encoded; the text says why.
    EncodeFailed(String),
    /// The file could not be written; the text says why.
    IoFailed(String),
}

/// A `Failure` with its texts as sequences of characters.
pub enum FailureView {
    NoDisplayAvailable,
    CaptureFailed(Seq<char>),
    BufferShapeMismatch,
    EncodeFailed(Seq<char>),
    IoFailed(Seq<char>),
}

impl View for Failure {
    type V = FailureView;

    open spec fn view(&self) -> FailureView {
        match *self {
            Failure::NoDisplayAvailable => FailureView::NoDisplayAvailable,
            Failure::CaptureFailed(reason) => FailureView::CaptureFailed(reason@),
            Failure::BufferShapeMismatch => FailureView::BufferShapeMismatch,
            Failure::EncodeFailed(reason) => FailureView::EncodeFailed(reason@),
            Failure::IoFailed(reason) => FailureView::IoFailed(reason@),
        }
    }
}

/// How one request to capture and save ended: the thing the user is told.
#[derive(Clone, Debug, PartialEq, Eq)]
pub enum Outcome {
    /// The picture is in the file at this path.
    Saved(String),
    /// A frame was captured but no file came of it.
    SaveFailed(String),
    /// No frame could be captured.
    CaptureFailed(String),
    /// There was no display to capture.
    NoDisplayAvailable,
}

/// An `Outcome` with its texts as sequences of characters.
pub enum OutcomeView {
    Saved(Seq<char>),
    SaveFailed(Seq<char>),
    CaptureFailed(Seq<char>),
    NoDisplayAvailable,
}

impl View for Outcome {
    type V = OutcomeView;

    open spec fn view(&self) -> OutcomeView {
        match *self {
            Outcome::Saved(path) => OutcomeView::Saved(path@),
            Outcome::SaveFailed(reason) => OutcomeView::SaveFailed(reason@),
            Outcome::CaptureFailed(reason) => OutcomeView::CaptureFailed(reason@),
            Outcome::NoDisplayAvailable => OutcomeView::NoDisplayAvailable,
        }
    }
}

/// A desktop notification: a short title and one line of text.
#[derive(Clone, Debug, PartialEq, Eq)]
pub struct Notification {
    pub summary: String,
    pub body: String,
}

/// A `Notification` with its texts as sequences of characters.
pub struct NotificationView {
    pub summary: Seq<char>,
    pub body: Seq<char>,
}

impl View for Notification {
    type V = NotificationView;

    open spec fn view(&self) -> NotificationView {
        NotificationView { summary: self.summary@, body: self.body@ }
    }
}

/// The outcome that reports a failure. Every failure has one, so none goes
/// unreported. The three ways in which a captured frame can fail to become
/// a file are all reported as a failed save.
pub open spec fn outcome_of(failure: FailureView) -> OutcomeView {
    match failure {
        FailureView::NoDisplayAvailable => OutcomeView::NoDisplayAvailable,
        FailureView::CaptureFailed(reason) => OutcomeView::CaptureFailed(reason),
        FailureView::BufferShapeMismatch => OutcomeView::SaveFailed(
            "pixel buffer does not match the image size"@,
        ),
        FailureView::EncodeFailed(reason) => OutcomeView::SaveFailed(reason),
        FailureView::IoFailed(reason) => OutcomeView::SaveFailed(reason),
    }
}

/// The notification that tells the user of an outcome.
pub open spec fn notification_of(outcome: OutcomeView) -> NotificationView {
    match outcome {
        OutcomeView::Saved(path) => NotificationView {
            summary: "Screenshot Saved!"@,
            body: "File saved as "@ + path,
        },
        OutcomeView::SaveFailed(reason) => NotificationView {
            summary: "Screenshot Error"@,
            body: "Unable to save screenshot: "@ + reason,
        },
        OutcomeView::CaptureFailed(reason) => NotificationView {
            summary: "Screenshot Error"@,
            body: "Unable to capture screen: "@ + reason,
        },
        OutcomeView::NoDisplayAvailable => NotificationView {
            summary: "Screenshot Error"@,
            body: "No available screen for capture!"@,
        },
    }
}

impl Failure {
    /// The outcome that reports this failure.
    pub fn outcome(self) -> (outcome: Outcome)
        ensures
            outcome@ == outcome_of(self@),
    {
        match self {
            Failure::NoDisplayAvailable => Outcome::NoDisplayAvailable,
            Failure::CaptureFailed(reason) => Outcome::CaptureFailed(reason),
            Failure::BufferShapeMismatch => Outcome::SaveFailed(
                String::from_str("pixel buffer does not match the image size"),
            ),
            Failure::EncodeFailed(reason) => Outcome::SaveFailed(reason),
            Failure::IoFailed(reason) => Outcome::SaveFailed(reason),
        }
    }
}

impl Outcome {
    /// The notification that tells the user of this outcome.
    pub fn notification(&self) -> (notification: Notification)
        ensures
            notification@ == notification_of(self@),
    {
        match self {
            Outcome::Saved(path) => Notification {
                summary: String::from_str("Screenshot Saved!"),
                body: String::from_str("File saved as ").concat(path.as_str()),
            },
            Outcome::SaveFailed(reason) => Notification {
                summary: String::from_str("Screenshot Error"),
                body: String::from_str("Unable to save screenshot: ").concat(reason.as_str()),
            },
            Outcome::CaptureFailed(reason) => Notification {
                summary: String::from_str("Screenshot Error"),
                body: String::from_str("Unable to capture screen: ").concat(reason.as_str()),
            },
            Outcome::NoDisplayAvailable => Notification {
                summary: String::from_str("Screenshot Error"),
                body: String::from_str("No available screen for capture!"),
            },
        }
    }
}

} // verus!
