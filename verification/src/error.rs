//! What can go wrong, as a closed set of kinds.

use vstd::prelude::*;

verus! {

/// The commands that need something after their keyword.
#[derive(Clone, Copy, Debug, PartialEq, Eq, Structural)]
pub enum Command {
    Add,
    Update,
    Delete,
    MarkInProgress,
    MarkDone,
}

/// Why a token is no task id.
#[derive(Clone, Copy, Debug, PartialEq, Eq, Structural)]
pub enum IdError {
    /// The token is empty.
    Empty,
    /// The token holds something other than decimal digits after an optional `+`.
    InvalidDigit,
    /// The digits name a number above `usize::MAX`.
    Overflow,
}

/// Why the command line names no action.
#[derive(Debug, PartialEq, Eq)]
pub enum ArgumentError {
    /// Nothing follows the program name.
    MissingAction,
    /// The action keyword is none of the known ones.
    UnknownAction(String),
    /// The command needs a description and none follows.
    MissingDescription(Command),
    /// The command needs a task id and none follows.
    MissingId(Command),
    /// The token in the place of the id is no id.
    InvalidId(IdError),
    /// The word after `list` names no status.
    UnknownStatus(String),
}

/// Every failure of the tracker.
#[derive(Debug, PartialEq, Eq)]
pub enum Error {
    /// The command line names no action.
    Argument(ArgumentError),
    /// No task has the id that the action names.
    NotFound(usize),
    /// The stored state could not be read or written.
    Io(String),
    /// The stored state is not that of a tracker.
    Format(String),
}

/// What an [`ArgumentError`] says, with text as sequences of characters.
pub enum ArgumentErrorView {
    MissingAction,
    UnknownAction(Seq<char>),
    MissingDescription(Command),
    MissingId(Command),
    InvalidId(IdError),
    UnknownStatus(Seq<char>),
}

/// What an [`Error`] says, with text as sequences of characters.
pub enum ErrorView {
    Argument(ArgumentErrorView),
    NotFound(nat),
    Io(Seq<char>),
    Format(Seq<char>),
}

impl Command {
    /// The command in the words of a message.
    pub open spec fn phrase_text(self) -> Seq<char> {
        match self {
            Command::Add => "add task"@,
            Command::Update => "update task"@,
            Command::Delete => "delete task"@,
            Command::MarkInProgress => "mark task in progress"@,
            Command::MarkDone => "mark task done"@,
        }
    }

    /// The command in the words of a message.
    pub fn phrase(&self) -> (r: &'static str)
        ensures
            r@ == self.phrase_text(),
    {
        match self {
            Command::Add => "add task",
            Command::Update => "update task",
            Command::Delete => "delete task",
            Command::MarkInProgress => "mark task in progress",
            Command::MarkDone => "mark task done",
        }
    }
}

impl IdError {
    /// Why the token is no id, in words.
    pub open spec fn reason_text(self) -> Seq<char> {
        match self {
            IdError::Empty => "cannot parse integer from empty string"@,
            IdError::InvalidDigit => "invalid digit found in string"@,
            IdError::Overflow => "number too large to fit in target type"@,
        }
    }

    /// Why the token is no id, in words.
    pub fn reason(&self) -> (r: &'static str)
        ensures
            r@ == self.reason_text(),
    {
        match self {
            IdError::Empty => "cannot parse integer from empty string",
            IdError::InvalidDigit => "invalid digit found in string",
            IdError::Overflow => "number too large to fit in target type",
        }
    }
}

impl ArgumentErrorView {
    /// The message of the error.
    pub open spec fn message(self) -> Seq<char> {
        match self {
            ArgumentErrorView::MissingAction => "Action was not provided"@,
            ArgumentErrorView::UnknownAction(word) => "Action "@ + word + " not contemplated"@,
            ArgumentErrorView::MissingDescription(command) => "Task description was not provided to "@
                + command.phrase_text(),
            ArgumentErrorView::MissingId(command) => "Id was not provided to "@
                + command.phrase_text(),
            ArgumentErrorView::InvalidId(why) => why.reason_text(),
            ArgumentErrorView::UnknownStatus(word) => "Status "@ + word + " is not contemplated"@,
        }
    }
}

impl ErrorView {
    /// The message of the error.
    pub open spec fn message(self) -> Seq<char> {
        match self {
            ErrorView::Argument(e) => e.message(),
            ErrorView::NotFound(_) => "Task id does not exist."@,
            ErrorView::Io(text) => text,
            ErrorView::Format(text) => text,
        }
    }
}

impl ArgumentError {
    /// The message of the error.
    pub fn message(&self) -> (r: String)
        ensures
            r@ == self@.message(),
    {
        match self {
            ArgumentError::MissingAction => String::from_str("Action was not provided"),
            ArgumentError::UnknownAction(word) => {
                let mut text = String::from_str("Action ");
                text.append(word.as_str());
                text.append(" not contemplated");
                text
            },
            ArgumentError::MissingDescription(command) => {
                let mut text = String::from_str("Task description was not provided to ");
                text.append(command.phrase());
                text
            },
            ArgumentError::MissingId(command) => {
                let mut text = String::from_str("Id was not provided to ");
                text.append(command.phrase());
                text
            },
            ArgumentError::InvalidId(why) => String::from_str(why.reason()),
            ArgumentError::UnknownStatus(word) => {
                let mut text = String::from_str("Status ");
                text.append(word.as_str());
                text.append(" is not contemplated");
                text
            },
        }
    }
}

impl Error {
    /// The message of the error.
    pub fn message(&self) -> (r: String)
        ensures
            r@ == self@.message(),
    {
        match self {
            Error::Argument(e) => e.message(),
            Error::NotFound(_) => String::from_str("Task id does not exist."),
            Error::Io(text) => text.clone(),
            Error::Format(text) => text.clone(),
        }
    }
}

impl View for ArgumentError {
    type V = ArgumentErrorView;

    open spec fn view(&self) -> ArgumentErrorView {
        match self {
            ArgumentError::MissingAction => ArgumentErrorView::MissingAction,
            ArgumentError::UnknownAction(word) => ArgumentErrorView::UnknownAction(word@),
            ArgumentError::MissingDescription(command) => ArgumentErrorView::MissingDescription(
                *command,
            ),
            ArgumentError::MissingId(command) => ArgumentErrorView::MissingId(*command),
            ArgumentError::InvalidId(why) => ArgumentErrorView::InvalidId(*why),
            ArgumentError::UnknownStatus(word) => ArgumentErrorView::UnknownStatus(word@),
        }
    }
}

impl View for Error {
    type V = ErrorView;

    open spec fn view(&self) -> ErrorView {
        match self {
            Error::Argument(e) => ErrorView::Argument(e@),
            Error::NotFound(id) => ErrorView::NotFound(*id as nat),
            Error::Io(text) => ErrorView::Io(text@),
            Error::Format(text) => ErrorView::Format(text@),
        }
    }
}

} // verus!
