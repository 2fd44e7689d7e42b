//! One to-do item.

use crate::number::{decimal, decimal_text};
use crate::status::Status;
use crate::text::text_of;
use crate::time::Timestamp;
use vstd::prelude::*;

verus! {

/// A to-do item: what is to be done, where it stands, and when it was
/// recorded and last changed.
#[derive(Debug, PartialEq, Eq)]
pub struct Task {
    id: usize,
    description: String,
    status: Status,
    created_at: Timestamp,
    updated_at: Timestamp,
}

/// A task as a mathematical value.
pub struct TaskView {
    pub id: nat,
    pub description: Seq<char>,
    pub status: Status,
    pub created_at: Timestamp,
    pub updated_at: Timestamp,
}

impl TaskView {
    /// What holds of every task in a tracker: ids start at 1.
    pub open spec fn wf(self) -> bool {
        self.id >= 1
    }

    /// Whether the last change is dated at the recording or after it. This
    /// holds as long as the clock does not show a time before one that it
    /// showed earlier; no operation enforces it.
    pub open spec fn times_ordered(self) -> bool {
        self.updated_at.at_or_after(self.created_at)
    }

    /// The task recorded at `now` under `id`.
    pub open spec fn fresh(id: nat, description: Seq<char>, now: Timestamp) -> TaskView {
        TaskView { id, description, status: Status::Todo, created_at: now, updated_at: now }
    }

    /// The same task under a new description, changed at `now`.
    pub open spec fn described(self, description: Seq<char>, now: Timestamp) -> TaskView {
        TaskView { description, updated_at: now, ..self }
    }

    /// The same task under a new status, changed at `now`.
    pub open spec fn marked(self, status: Status, now: Timestamp) -> TaskView {
        TaskView { status, updated_at: now, ..self }
    }
}

/// The strftime pattern under which a task shows its times: day, month and
/// year, then hours, minutes and seconds.
pub open spec fn time_pattern_text() -> Seq<char> {
    "%d/%m/%Y %H:%M:%S"@
}

/// The strftime pattern under which a task shows its times.
pub fn time_pattern() -> (r: &'static str)
    ensures
        r@ == time_pattern_text(),
{
    "%d/%m/%Y %H:%M:%S"
}

/// A task as it is shown, with its two times already written as `created`
/// and `updated`: five lines, the last four indented.
pub open spec fn layout(task: TaskView, created: Seq<char>, updated: Seq<char>) -> Seq<char> {
    "Task: "@ + task.description + "\n    Id: "@ + decimal_text(task.id) + "\n    Status: "@
        + task.status.label_text() + "\n    Created: "@ + created + "\n    Updated: "@ + updated
        + "\n"@
}

impl TaskView {
    /// The task as it is shown, if both of its times can be written.
    pub open spec fn rendered(self) -> Option<Seq<char>> {
        match (
            self.created_at.formatted_as(time_pattern_text()),
            self.updated_at.formatted_as(time_pattern_text()),
        ) {
            (Some(created), Some(updated)) => Some(layout(self, created, updated)),
            _ => None,
        }
    }
}

impl View for Task {
    type V = TaskView;

    closed spec fn view(&self) -> TaskView {
        TaskView {
            id: self.id as nat,
            description: self.description@,
            status: self.status,
            created_at: self.created_at,
            updated_at: self.updated_at,
        }
    }
}

impl Task {
    /// Records a task at `now`: its status is `Todo`, and it counts as last
    /// changed when it was recorded.
    pub fn new(id: usize, description: String, now: Timestamp) -> (r: Task)
        ensures
            r@ == TaskView::fresh(id as nat, description@, now),
    {
        Task { id, description, status: Status::Todo, created_at: now, updated_at: now }
    }

    /// Makes a task of its five fields, as they come out of a stored tracker.
    pub fn from_parts(
        id: usize,
        description: String,
        status: Status,
        created_at: Timestamp,
        updated_at: Timestamp,
    ) -> (r: Task)
        ensures
            r@ == (TaskView {
                id: id as nat,
                description: description@,
                status,
                created_at,
                updated_at,
            }),
    {
        Task { id, description, status, created_at, updated_at }
    }

    /// Sets the status, and dates the change at `now`.
    pub fn with_status(&mut self, status: Status, now: Timestamp)
        ensures
            final(self)@ == old(self)@.marked(status, now),
    {
        self.status = status;
        self.with_updated_at(now);
    }

    /// Replaces the description, and dates the change at `now`.
    pub fn with_description(&mut self, description: String, now: Timestamp)
        ensures
            final(self)@ == old(self)@.described(description@, now),
    {
        self.description = description;
        self.with_updated_at(now);
    }

    /// Dates the last change at `now`, whatever `now` is.
    pub fn with_updated_at(&mut self, now: Timestamp)
        ensures
            final(self)@ == (TaskView { updated_at: now, ..old(self)@ }),
    {
        self.updated_at = now;
    }

    /// Writes the task as it is shown, with its two times written by the
    /// caller.
    pub fn render_with(&self, created: &str, updated: &str) -> (r: String)
        ensures
            r@ == layout(self@, created@, updated@),
    {
        let mut text = String::from_str("Task: ");
        text.append(self.description.as_str());
        text.append("\n    Id: ");
        text.append(decimal(self.id).as_str());
        text.append("\n    Status: ");
        text.append(self.status.label());
        text.append("\n    Created: ");
        text.append(created);
        text.append("\n    Updated: ");
        text.append(updated);
        text.append("\n");
        text
    }

    /// Writes the task as it is shown, its times as local time under
    /// `time_pattern`. Yields nothing where one of the times has no date.
    pub fn render(&self) -> (r: Option<String>)
        ensures
            text_of(r) == self@.rendered(),
    {
        let created = match self.created_at.format(time_pattern()) {
            Some(text) => text,
            None => {
                return None;
            },
        };
        let updated = match self.updated_at.format(time_pattern()) {
            Some(text) => text,
            None => {
                return None;
            },
        };
        Some(self.render_with(created.as_str(), updated.as_str()))
    }

    /// The id, which never changes.
    pub fn id(&self) -> (r: usize)
        ensures
            r == self@.id,
    {
        self.id
    }

    /// What is to be done.
    pub fn description(&self) -> (r: &str)
        ensures
            r@ == self@.description,
    {
        self.description.as_str()
    }

    /// Where the task stands.
    pub fn status(&self) -> (r: Status)
        ensures
            r == self@.status,
    {
        self.status
    }

    /// When the task was recorded.
    pub fn created_at(&self) -> (r: Timestamp)
        ensures
            r == self@.created_at,
    {
        self.created_at
    }

    /// When the task was last changed.
    pub fn updated_at(&self) -> (r: Timestamp)
        ensures
            r == self@.updated_at,
    {
        self.updated_at
    }
}

} // verus!
