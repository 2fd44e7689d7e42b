//! The lifecycle label of a task.

use crate::text::same_text;
use vstd::prelude::*;

verus! {

/// Where a task stands. Any status may follow any other: nothing orders them.
#[derive(Clone, Copy, Debug, PartialEq, Eq, Structural)]
pub enum Status {
    Todo,
    InProgress,
    Done,
}

impl Status {
    /// The word that selects this status on the command line.
    pub open spec fn keyword(self) -> Seq<char> {
        match self {
            Status::Todo => "todo"@,
            Status::InProgress => "in-progress"@,
            Status::Done => "done"@,
        }
    }

    /// The name under which this status is shown.
    pub open spec fn label_text(self) -> Seq<char> {
        match self {
            Status::Todo => "Todo"@,
            Status::InProgress => "InProgress"@,
            Status::Done => "Done"@,
        }
    }

    /// The status that `word` selects, if it selects one.
    pub open spec fn named(word: Seq<char>) -> Option<Status> {
        if word == Status::Todo.keyword() {
            Some(Status::Todo)
        } else if word == Status::InProgress.keyword() {
            Some(Status::InProgress)
        } else if word == Status::Done.keyword() {
            Some(Status::Done)
        } else {
            None
        }
    }

    /// Reads a status keyword: `todo`, `in-progress` or `done`.
    pub fn from_keyword(word: &str) -> (r: Option<Status>)
        ensures
            r == Status::named(word@),
    {
        if same_text(word, "todo") {
            Some(Status::Todo)
        } else if same_text(word, "in-progress") {
            Some(Status::InProgress)
        } else if same_text(word, "done") {
            Some(Status::Done)
        } else {
            None
        }
    }

    /// The name under which this status is shown.
    pub fn label(&self) -> (r: &'static str)
        ensures
            r@ == self.label_text(),
    {
        match self {
            Status::Todo => "Todo",
            Status::InProgress => "InProgress",
            Status::Done => "Done",
        }
    }
}

} // verus!
