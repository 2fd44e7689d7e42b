//! A task manager whose one update takes a new description, a new status,
//! both or neither.

use crate::error::Error;
use crate::status::Status;
use crate::task::{Task, TaskView};
use crate::text::text_of;
use crate::time::{clock_now, Timestamp};
use crate::tracker::{ref_views, Tracker, TrackerView};
use vstd::prelude::*;

verus! {

/// A store of tasks that is changed by direct calls.
#[derive(Debug, PartialEq, Eq)]
pub struct TaskManager {
    tracker: Tracker,
}

impl TaskView {
    /// The same task under what an update gives: the description and the
    /// status that are given replace the old ones, and the update is dated at
    /// `now` also where it gives neither.
    pub open spec fn revised(
        self,
        description: Option<Seq<char>>,
        status: Option<Status>,
        now: Timestamp,
    ) -> TaskView {
        TaskView {
            description: match description {
                Some(text) => text,
                None => self.description,
            },
            status: match status {
                Some(status) => status,
                None => self.status,
            },
            updated_at: now,
            ..self
        }
    }
}

impl TrackerView {
    /// The store after the task `id` was revised at `now`.
    pub open spec fn revised(
        self,
        id: nat,
        description: Option<Seq<char>>,
        status: Option<Status>,
        now: Timestamp,
    ) -> TrackerView {
        TrackerView {
            tasks: self.tasks.map_values(
                |task: TaskView|
                    if task.id == id {
                        task.revised(description, status, now)
                    } else {
                        task
                    },
            ),
            ..self
        }
    }
}

/// A revision is the update and the change of status that it holds, in one:
/// with a description only it is the update, with a status only it is the
/// change of status, and with both it is the one after the other.
pub proof fn law_revision_by_parts(
    store: TrackerView,
    id: nat,
    description: Seq<char>,
    status: Status,
    now: Timestamp,
)
    ensures
        store.revised(id, Some(description), None, now) == store.updated(id, description, now),
        store.revised(id, None, Some(status), now) == store.marked(id, status, now),
        store.revised(id, Some(description), Some(status), now) == store.updated(
            id,
            description,
            now,
        ).marked(id, status, now),
{
    assert(store.revised(id, Some(description), None, now).tasks =~= store.updated(
        id,
        description,
        now,
    ).tasks);
    assert(store.revised(id, None, Some(status), now).tasks =~= store.marked(
        id,
        status,
        now,
    ).tasks);
    assert(store.revised(id, Some(description), Some(status), now).tasks =~= store.updated(
        id,
        description,
        now,
    ).marked(id, status, now).tasks);
}

impl View for TaskManager {
    type V = TrackerView;

    closed spec fn view(&self) -> TrackerView {
        self.tracker@
    }
}

impl TaskManager {
    /// Whether the invariants of the store hold. Every constructor
    /// establishes them and every operation keeps them.
    pub open spec fn wf(&self) -> bool {
        self@.wf()
    }

    /// A manager that holds nothing.
    pub fn new() -> (r: TaskManager)
        ensures
            r@ == TrackerView::empty(),
            r.wf(),
    {
        TaskManager { tracker: Tracker::new() }
    }

    /// Adds a task with `description`, recorded at `now`.
    pub fn add_at(&mut self, description: String, now: Timestamp)
        requires
            old(self).wf(),
            old(self)@.last_id < usize::MAX,
        ensures
            final(self)@ == old(self)@.added(description@, now),
            final(self).wf(),
    {
        self.tracker.add_at(description, now);
    }

    /// Adds a task with `description`, recorded at the time that the clock
    /// shows.
    ///
    /// # Panics
    ///
    /// Reading the clock panics where the system clock stands before 1970 or
    /// the system's zone data give no local offset for the present instant.
    pub fn add(&mut self, description: String)
        requires
            old(self).wf(),
            old(self)@.last_id < usize::MAX,
        ensures
            exists|now: Timestamp| final(self)@ == #[trigger] old(self)@.added(description@, now),
            final(self).wf(),
    {
        self.tracker.add(description);
    }

    /// Revises the task `id` at `now`: gives it the description and the
    /// status that are given, and counts as a change also where neither is.
    pub fn update_at(
        &mut self,
        id: usize,
        description: Option<String>,
        status: Option<Status>,
        now: Timestamp,
    ) -> (r: Result<(), Error>)
        requires
            old(self).wf(),
        ensures
            old(self)@.contains(id as nat) ==> r is Ok && final(self)@ == old(self)@.revised(
                id as nat,
                text_of(description),
                status,
                now,
            ),
            !old(self)@.contains(id as nat) ==> r == Err::<(), Error>(Error::NotFound(id))
                && *final(self) == *old(self),
            final(self).wf(),
    {
        let ghost before = self@;
        let ghost wanted = before.revised(id as nat, text_of(description), status, now);
        let kept = match self.tracker.get(id) {
            Some(task) => task.status(),
            None => {
                return Err(Error::NotFound(id));
            },
        };
        let status = match status {
            Some(status) => status,
            None => kept,
        };
        proof {
            let i = before.index_of(id as nat);
            assert forall|j: int| 0 <= j < before.tasks.len() && before.tasks[j].id
                == id implies j == i by {
                if j < i {
                    assert(before.tasks[j].id < before.tasks[i].id);
                } else if i < j {
                    assert(before.tasks[i].id < before.tasks[j].id);
                }
            }
        }
        match description {
            Some(text) => {
                let ghost described = before.updated(id as nat, text@, now);
                let _ = self.tracker.update_at(id, text, now);
                assert(described.tasks[before.index_of(id as nat)].id == id);
                let second = self.tracker.mark_status_at(id, status, now);
                assert(self@.tasks =~= wanted.tasks);
                second
            },
            None => {
                let r = self.tracker.mark_status_at(id, status, now);
                assert(self@.tasks =~= wanted.tasks);
                r
            },
        }
    }

    /// Revises the task `id` at the time that the clock shows.
    ///
    /// # Panics
    ///
    /// Reading the clock panics where the system clock stands before 1970 or
    /// the system's zone data give no local offset for the present instant.
    pub fn update(&mut self, id: usize, description: Option<String>, status: Option<Status>) -> (r:
        Result<(), Error>)
        requires
            old(self).wf(),
        ensures
            old(self)@.contains(id as nat) ==> r is Ok && exists|now: Timestamp|
                final(self)@ == #[trigger] old(self)@.revised(
                    id as nat,
                    text_of(description),
                    status,
                    now,
                ),
            !old(self)@.contains(id as nat) ==> r == Err::<(), Error>(Error::NotFound(id))
                && *final(self) == *old(self),
            final(self).wf(),
    {
        let now = clock_now();
        self.update_at(id, description, status, now)
    }

    /// Removes the task `id`. The other tasks keep their ids and their order.
    pub fn delete(&mut self, id: usize) -> (r: Result<(), Error>)
        requires
            old(self).wf(),
        ensures
            old(self)@.contains(id as nat) ==> r is Ok && final(self)@ == old(self)@.deleted(
                id as nat,
            ),
            !old(self)@.contains(id as nat) ==> r == Err::<(), Error>(Error::NotFound(id))
                && *final(self) == *old(self),
            final(self).wf(),
    {
        self.tracker.delete(id)
    }

    /// The tasks with the status `status`, or all tasks where it is `None`,
    /// in the order in which they were added.
    pub fn list(&self, status: Option<Status>) -> (r: Vec<&Task>)
        ensures
            ref_views(r@) == self@.listed(status),
    {
        self.tracker.list(status)
    }
}

impl Default for TaskManager {
    /// A manager that holds nothing.
    fn default() -> (r: TaskManager)
        ensures
            r@ == TrackerView::empty(),
            r.wf(),
    {
        TaskManager::new()
    }
}

} // verus!
