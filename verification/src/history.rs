//! The recent command history of a session and the persisted outcome shapes.
use vstd::prelude::*;
use crate::command::Command;
use crate::error::{Error, ErrorView};

verus! {

/// The terminal result of a command: its JSON output, or the error that ended it.
pub type Outcome = Result<String, Error>;

/// How an accepted command ended, as history and recordings report it.
#[derive(Debug)]
pub enum Recorded {
    Unanswered,
    Completed { output: String },
    Rejected { code: String, message: String },
    ProtocolFailed { code: String, message: String },
    IoFailed { message: String },
}

/// The mathematical value of a [`Recorded`] outcome.
pub enum RecordedView {
    Unanswered,
    Completed { output: Seq<char> },
    Rejected { code: Seq<char>, message: Seq<char> },
    ProtocolFailed { code: Seq<char>, message: Seq<char> },
    IoFailed { message: Seq<char> },
}

impl View for Recorded {
    type V = RecordedView;

    open spec fn view(&self) -> RecordedView {
        match self {
            Recorded::Unanswered => RecordedView::Unanswered,
            Recorded::Completed { output } => RecordedView::Completed { output: output@ },
            Recorded::Rejected { code, message } => RecordedView::Rejected {
                code: code@,
                message: message@,
            },
            Recorded::ProtocolFailed { code, message } => RecordedView::ProtocolFailed {
                code: code@,
                message: message@,
            },
            Recorded::IoFailed { message } => RecordedView::IoFailed { message: message@ },
        }
    }
}

/// The persisted shape of an outcome: a missing outcome and the end of the
/// session are unanswered, protocol and input/output failures keep their own
/// kinds, and every other error is a rejection with its code and message.
pub open spec fn recorded_of(outcome: Option<Outcome>) -> RecordedView {
    match outcome {
        None => RecordedView::Unanswered,
        Some(Ok(output)) => RecordedView::Completed { output: output@ },
        Some(Err(e)) => match e@ {
            ErrorView::Ended => RecordedView::Unanswered,
            ErrorView::Protocol { code, message } => RecordedView::ProtocolFailed { code, message },
            ErrorView::Io { message } => RecordedView::IoFailed { message },
            other => RecordedView::Rejected { code: other.code(), message: other.message() },
        },
    }
}

/// The persisted shape of an outcome, or of a command that never got one.
pub fn record_of(outcome: Option<&Outcome>) -> (r: Recorded)
    ensures
        r@ == recorded_of(match outcome {
            Some(o) => Some(*o),
            None => None,
        }),
{
    match outcome {
        None => Recorded::Unanswered,
        Some(Ok(output)) => Recorded::Completed { output: output.clone() },
        Some(Err(Error::Ended)) => Recorded::Unanswered,
        Some(Err(Error::Protocol { code, message })) => Recorded::ProtocolFailed {
            code: code.clone(),
            message: message.clone(),
        },
        Some(Err(Error::Io { message })) => Recorded::IoFailed { message: message.clone() },
        Some(Err(e)) => Recorded::Rejected {
            code: String::from_str(e.code()),
            message: String::from_str(e.message()),
        },
    }
}

impl Recorded {
    /// A copy of this outcome.
    pub fn duplicate(&self) -> (r: Recorded)
        ensures
            r == *self,
    {
        match self {
            Recorded::Unanswered => Recorded::Unanswered,
            Recorded::Completed { output } => Recorded::Completed { output: output.clone() },
            Recorded::Rejected { code, message } => Recorded::Rejected {
                code: code.clone(),
                message: message.clone(),
            },
            Recorded::ProtocolFailed { code, message } => Recorded::ProtocolFailed {
                code: code.clone(),
                message: message.clone(),
            },
            Recorded::IoFailed { message } => Recorded::IoFailed { message: message.clone() },
        }
    }
}

/// A command the session accepted and how it ended so far.
#[derive(Debug)]
pub struct Entry {
    pub command: Command,
    pub outcome: Recorded,
}

impl Entry {
    /// A copy of this entry.
    pub fn duplicate(&self) -> (r: Entry)
        ensures
            r == *self,
    {
        Entry { command: self.command.duplicate(), outcome: self.outcome.duplicate() }
    }
}

} // verus!

verus! {

/// A copy of an outcome.
pub fn duplicate_outcome(o: &Outcome) -> (r: Outcome)
    ensures
        r == *o,
{
    match o {
        Ok(output) => Ok(output.clone()),
        Err(e) => Err(e.duplicate()),
    }
}

} // verus!
