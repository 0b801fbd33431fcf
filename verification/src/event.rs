//! What the caller reports back after it has carried out a step.

use crate::error::{about, interrupted, io_failure, plain};
use crate::error::{DoaseditError, ErrorKind, ErrorView};
use crate::utils::FileMetadata;
use vstd::prelude::*;

verus! {

/// The outcome of one step that the caller carried out.
#[derive(Clone, Debug, PartialEq, Eq)]
pub enum Event {
    /// A file operation went through.
    Done,
    /// A file operation failed; the platform's message.
    IoFailure(String),
    /// The metadata of the path that was looked at.
    Metadata(FileMetadata),
    /// A child process could not be started; the platform's message.
    SpawnFailure(String),
    /// A child process ran to its end, with what it wrote to its output.
    Exited { success: bool, output: Vec<u8> },
    /// A line the user typed.
    Input(String),
    /// The bytes of the working copy and of the reference copy.
    Contents { working: Vec<u8>, reference: Vec<u8> },
}

/// The mathematical value of an [`Event`].
pub enum EventView {
    Done,
    IoFailure(Seq<char>),
    Metadata(FileMetadata),
    SpawnFailure(Seq<char>),
    Exited { success: bool, output: Seq<u8> },
    Input(Seq<char>),
    Contents { working: Seq<u8>, reference: Seq<u8> },
}

impl View for Event {
    type V = EventView;

    open spec fn view(&self) -> EventView {
        match self {
            Event::Done => EventView::Done,
            Event::IoFailure(message) => EventView::IoFailure(message@),
            Event::Metadata(metadata) => EventView::Metadata(*metadata),
            Event::SpawnFailure(message) => EventView::SpawnFailure(message@),
            Event::Exited { success, output } => EventView::Exited {
                success: *success,
                output: output@,
            },
            Event::Input(line) => EventView::Input(line@),
            Event::Contents { working, reference } => EventView::Contents {
                working: working@,
                reference: reference@,
            },
        }
    }
}

/// How a run of the privilege helper ended.
#[derive(Clone, Copy, Debug, PartialEq, Eq, Structural)]
pub enum HelperOutcome {
    /// The helper did not run at all.
    Unavailable,
    /// The helper ran and reported failure.
    Refused,
    /// The helper ran and reported success.
    Granted,
}

/// How an event reads as the end of a helper run. Whatever is no exit of a
/// child process means that the helper did not run.
pub open spec fn helper_outcome(event: EventView) -> HelperOutcome {
    match event {
        EventView::Exited { success, .. } => if success {
            HelperOutcome::Granted
        } else {
            HelperOutcome::Refused
        },
        _ => HelperOutcome::Unavailable,
    }
}

/// How an event reads as the end of a file operation: done, failed with the
/// platform's message, or broken off where the event is neither.
pub open spec fn local_outcome(event: EventView) -> Result<(), ErrorView> {
    match event {
        EventView::Done => Ok(()),
        EventView::IoFailure(message) => Err(about(ErrorKind::Io, message)),
        _ => Err(plain(ErrorKind::Interrupted)),
    }
}

/// The value of a result that holds nothing or an error.
pub open spec fn unit_result(result: Result<(), DoaseditError>) -> Result<(), ErrorView> {
    match result {
        Ok(_) => Ok(()),
        Err(error) => Err(error@),
    }
}

impl Event {
    /// Reads this event as the end of a helper run.
    pub fn as_helper_outcome(&self) -> (outcome: HelperOutcome)
        ensures
            outcome == helper_outcome(self@),
    {
        match self {
            Event::Exited { success, .. } => if *success {
                HelperOutcome::Granted
            } else {
                HelperOutcome::Refused
            },
            _ => HelperOutcome::Unavailable,
        }
    }

    /// Reads this event as the end of a file operation.
    pub fn as_local_outcome(&self) -> (result: Result<(), DoaseditError>)
        ensures
            unit_result(result) == local_outcome(self@),
    {
        match self {
            Event::Done => Ok(()),
            Event::IoFailure(message) => Err(io_failure(message.as_str())),
            _ => Err(interrupted()),
        }
    }
}

} // verus!
