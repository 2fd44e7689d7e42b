//! The store of tasks and the operations on it.

use crate::action::{Action, ActionView};
use crate::error::{Error, ErrorView};
use crate::status::Status;
use crate::task::{Task, TaskView};
use crate::time::{clock_now, Timestamp};
use vstd::prelude::*;

verus! {

/// The tasks in the order in which they were added, and the highest id ever
/// given out.
#[derive(Debug, PartialEq, Eq)]
pub struct Tracker {
    tasks: Vec<Task>,
    last_id: usize,
}

/// A tracker as a mathematical value.
pub struct TrackerView {
    pub tasks: Seq<TaskView>,
    pub last_id: nat,
}

/// The tasks that a listing with `filter` shows.
pub open spec fn shows(filter: Option<Status>) -> spec_fn(TaskView) -> bool {
    |task: TaskView|
        match filter {
            Some(status) => task.status == status,
            None => true,
        }
}

/// The tasks with another id than `id`.
pub open spec fn other_than(id: nat) -> spec_fn(TaskView) -> bool {
    |task: TaskView| task.id != id
}

impl TrackerView {
    /// The tracker that holds nothing and has given out no id.
    pub open spec fn empty() -> TrackerView {
        TrackerView { tasks: Seq::empty(), last_id: 0 }
    }

    /// What holds of every tracker: ids start at 1, no id is above `last_id`,
    /// and the ids grow along the sequence, so that none occurs twice.
    pub open spec fn wf(self) -> bool {
        &&& forall|i: int|
            0 <= i < self.tasks.len() ==> (#[trigger] self.tasks[i]).wf() && self.tasks[i].id
                <= self.last_id
        &&& forall|i: int, j: int|
            0 <= i < j < self.tasks.len() ==> (#[trigger] self.tasks[i]).id < (
            #[trigger] self.tasks[j]).id
    }

    /// Whether every task was last changed at its recording or after it.
    /// This holds as long as the clock does not go back; it is no part of
    /// `wf`, and no operation enforces it.
    pub open spec fn times_ordered(self) -> bool {
        forall|i: int| 0 <= i < self.tasks.len() ==> (#[trigger] self.tasks[i]).times_ordered()
    }

    /// Whether a task has the id `id`.
    pub open spec fn contains(self, id: nat) -> bool {
        exists|i: int| 0 <= i < self.tasks.len() && (#[trigger] self.tasks[i]).id == id
    }

    /// The place of the task with the id `id`.
    pub open spec fn index_of(self, id: nat) -> int
        recommends
            self.contains(id),
    {
        choose|i: int| 0 <= i < self.tasks.len() && (#[trigger] self.tasks[i]).id == id
    }

    /// The task with the id `id`.
    pub open spec fn task(self, id: nat) -> TaskView
        recommends
            self.contains(id),
    {
        self.tasks[self.index_of(id)]
    }

    /// The tracker after a task with `description` was added at `now`.
    pub open spec fn added(self, description: Seq<char>, now: Timestamp) -> TrackerView {
        TrackerView {
            tasks: self.tasks.push(TaskView::fresh(self.last_id + 1, description, now)),
            last_id: self.last_id + 1,
        }
    }

    /// The tracker after the task `id` got a new description at `now`.
    pub open spec fn updated(self, id: nat, description: Seq<char>, now: Timestamp) -> TrackerView {
        TrackerView {
            tasks: self.tasks.map_values(
                |task: TaskView|
                    if task.id == id {
                        task.described(description, now)
                    } else {
                        task
                    },
            ),
            ..self
        }
    }

    /// The tracker after the task `id` got a new status at `now`.
    pub open spec fn marked(self, id: nat, status: Status, now: Timestamp) -> TrackerView {
        TrackerView {
            tasks: self.tasks.map_values(
                |task: TaskView|
                    if task.id == id {
                        task.marked(status, now)
                    } else {
                        task
                    },
            ),
            ..self
        }
    }

    /// The tracker without the task `id`. `last_id` stays, so the id is not
    /// given out again.
    pub open spec fn deleted(self, id: nat) -> TrackerView {
        TrackerView { tasks: self.tasks.filter(other_than(id)), ..self }
    }

    /// The tasks that a listing with `filter` shows, in the order in which
    /// they were added.
    pub open spec fn listed(self, filter: Option<Status>) -> Seq<TaskView> {
        self.tasks.filter(shows(filter))
    }

    /// The tracker after `action` was applied at `now`, and what the action
    /// yields: the tasks to show, or the reason why nothing was done.
    pub open spec fn step(self, action: ActionView, now: Timestamp) -> (
        TrackerView,
        Result<Seq<TaskView>, ErrorView>,
    ) {
        match action {
            ActionView::Add(description) => (self.added(description, now), Ok(Seq::empty())),
            ActionView::Update { id, description } => if self.contains(id) {
                (self.updated(id, description, now), Ok(Seq::empty()))
            } else {
                (self, Err(ErrorView::NotFound(id)))
            },
            ActionView::Delete(id) => if self.contains(id) {
                (self.deleted(id), Ok(Seq::empty()))
            } else {
                (self, Err(ErrorView::NotFound(id)))
            },
            ActionView::MarkInProgress(id) => if self.contains(id) {
                (self.marked(id, Status::InProgress, now), Ok(Seq::empty()))
            } else {
                (self, Err(ErrorView::NotFound(id)))
            },
            ActionView::MarkDone(id) => if self.contains(id) {
                (self.marked(id, Status::Done, now), Ok(Seq::empty()))
            } else {
                (self, Err(ErrorView::NotFound(id)))
            },
            ActionView::List(filter) => (self, Ok(self.listed(filter))),
        }
    }
}

/// Each task as a mathematical value.
pub open spec fn task_views(tasks: Seq<Task>) -> Seq<TaskView> {
    tasks.map_values(|task: Task| task@)
}

/// Each task referred to, as a mathematical value.
pub open spec fn ref_views(tasks: Seq<&Task>) -> Seq<TaskView> {
    tasks.map_values(|task: &Task| task@)
}

/// What an outcome of [`Tracker::process_action`] says, as a mathematical
/// value.
pub open spec fn outcome_view(outcome: Result<Vec<&Task>, Error>) -> Result<
    Seq<TaskView>,
    ErrorView,
> {
    match outcome {
        Ok(tasks) => Ok(ref_views(tasks@)),
        Err(e) => Err(e@),
    }
}

/// Stored parts as a mathematical value.
pub open spec fn parts_view(tasks: Seq<Task>, last_id: usize) -> TrackerView {
    TrackerView { tasks: task_views(tasks), last_id: last_id as nat }
}

/// What is said of stored parts that are not those of a tracker.
pub open spec fn malformed_text() -> Seq<char> {
    "Stored tasks break the invariants of a tracker"@
}

/// What is said of stored parts that are not those of a tracker.
fn malformed() -> (r: &'static str)
    ensures
        r@ == malformed_text(),
{
    "Stored tasks break the invariants of a tracker"
}

/// The outcome of an action that shows no tasks.
fn shown_nothing<'a>(done: Result<(), Error>) -> (r: Result<Vec<&'a Task>, Error>)
    ensures
        outcome_view(r) == match done {
            Ok(()) => Ok::<Seq<TaskView>, ErrorView>(Seq::empty()),
            Err(e) => Err::<Seq<TaskView>, ErrorView>(e@),
        },
        done matches Err(e) ==> r == Err::<Vec<&'a Task>, Error>(e),
{
    match done {
        Ok(()) => {
            let none: Vec<&'a Task> = Vec::new();
            assert(ref_views(none@) =~= Seq::empty());
            Ok(none)
        },
        Err(e) => Err(e),
    }
}

impl View for Tracker {
    type V = TrackerView;

    closed spec fn view(&self) -> TrackerView {
        TrackerView { tasks: task_views(self.tasks@), last_id: self.last_id as nat }
    }
}

/// Filtering a sequence with one more element at its end.
proof fn lemma_filter_push<A>(s: Seq<A>, x: A, keep: spec_fn(A) -> bool)
    ensures
        s.push(x).filter(keep) == if keep(x) {
            s.filter(keep).push(x)
        } else {
            s.filter(keep)
        },
{
    reveal(Seq::filter);
    assert(s.push(x).drop_last() =~= s);
}

/// Where every id but the one at place `i` differs from `id`, filtering the
/// others out removes exactly that place.
pub proof fn lemma_filter_removes(s: Seq<TaskView>, i: int, id: nat)
    requires
        0 <= i < s.len(),
        s[i].id == id,
        forall|j: int| 0 <= j < s.len() && j != i ==> (#[trigger] s[j]).id != id,
    ensures
        s.filter(other_than(id)) == s.remove(i),
    decreases s.len(),
{
    let keep = other_than(id);
    let front = s.drop_last();
    assert(s =~= front.push(s.last()));
    lemma_filter_push(front, s.last(), keep);
    if i == s.len() - 1 {
        lemma_filter_keeps(front, id);
    } else {
        lemma_filter_removes(front, i, id);
    }
}

/// Where no task has the id `id`, filtering the others out keeps all.
proof fn lemma_filter_keeps(s: Seq<TaskView>, id: nat)
    requires
        forall|j: int| 0 <= j < s.len() ==> (#[trigger] s[j]).id != id,
    ensures
        s.filter(other_than(id)) == s,
    decreases s.len(),
{
    if s.len() == 0 {
        reveal(Seq::filter);
    } else {
        let front = s.drop_last();
        assert(s =~= front.push(s.last()));
        lemma_filter_push(front, s.last(), other_than(id));
        lemma_filter_keeps(front, id);
    }
}

impl Tracker {
    /// Whether the invariants of a tracker hold. Every constructor
    /// establishes them and every operation keeps them.
    pub open spec fn wf(&self) -> bool {
        self@.wf()
    }

    /// A tracker that holds nothing.
    pub fn new() -> (r: Tracker)
        ensures
            r@ == TrackerView::empty(),
            r.wf(),
    {
        let r = Tracker { tasks: Vec::new(), last_id: 0 };
        assert(r@.tasks =~= Seq::empty());
        r
    }

    /// Makes a tracker of stored parts: the tasks in their order and the
    /// highest id ever given out. Parts that break the invariants of a tracker
    /// (`wf`) are refused as malformed. The times of the tasks are taken as
    /// they are.
    pub fn from_parts(tasks: Vec<Task>, last_id: usize) -> (r: Result<Tracker, Error>)
        ensures
            match r {
                Ok(tracker) => tracker@ == parts_view(tasks@, last_id) && tracker.wf(),
                Err(e) => !parts_view(tasks@, last_id).wf() && e@ == ErrorView::Format(
                    malformed_text(),
                ),
            },
    {
        let ghost parts = parts_view(tasks@, last_id);
        let mut i: usize = 0;
        while i < tasks.len()
            invariant
                i <= tasks@.len(),
                parts == parts_view(tasks@, last_id),
                forall|j: int|
                    0 <= j < i ==> (#[trigger] parts.tasks[j]).wf() && parts.tasks[j].id
                        <= last_id,
                forall|a: int, b: int|
                    0 <= a < b < i ==> (#[trigger] parts.tasks[a]).id < (
                    #[trigger] parts.tasks[b]).id,
            decreases tasks@.len() - i,
        {
            let task = &tasks[i];
            assert(parts.tasks[i as int] == task@);
            let sound = task.id() >= 1 && task.id() <= last_id;
            let follows = i == 0 || tasks[i - 1].id() < task.id();
            if !sound || !follows {
                proof {
                    if sound {
                        assert(parts.tasks[i - 1] == tasks@[i - 1]@);
                        assert(!(parts.tasks[i - 1].id < parts.tasks[i as int].id));
                    }
                }
                return Err(Error::Format(String::from_str(malformed())));
            }
            proof {
                assert forall|a: int, b: int| 0 <= a < b < i + 1 implies (
                #[trigger] parts.tasks[a]).id < (#[trigger] parts.tasks[b]).id by {
                    if b == i && a < i - 1 {
                        assert(parts.tasks[a].id < parts.tasks[i - 1].id);
                    }
                    if b == i {
                        assert(parts.tasks[i - 1] == tasks@[i - 1]@);
                    }
                }
            }
            i += 1;
        }
        Ok(Tracker { tasks, last_id })
    }

    /// The highest id ever given out.
    pub fn last_id(&self) -> (r: usize)
        ensures
            r == self@.last_id,
    {
        self.last_id
    }

    /// The tasks, in the order in which they were added.
    pub fn tasks(&self) -> (r: &Vec<Task>)
        ensures
            task_views(r@) == self@.tasks,
    {
        &self.tasks
    }

    /// The place of the task with the id `id`.
    fn position(&self, id: usize) -> (r: Option<usize>)
        ensures
            match r {
                Some(i) => i < self.tasks@.len() && self.tasks@[i as int]@.id == id,
                None => !self@.contains(id as nat),
            },
    {
        let mut i: usize = 0;
        while i < self.tasks.len()
            invariant
                i <= self.tasks@.len(),
                forall|j: int| 0 <= j < i ==> (#[trigger] self.tasks@[j])@.id != id,
            decreases self.tasks@.len() - i,
        {
            if self.tasks[i].id() == id {
                return Some(i);
            }
            i += 1;
        }
        assert forall|j: int| 0 <= j < self@.tasks.len() implies (#[trigger] self@.tasks[j]).id
            != id by {
            assert(self@.tasks[j] == self.tasks@[j]@);
        }
        None
    }

    /// The task with the id `id`, if there is one.
    pub fn get(&self, id: usize) -> (r: Option<&Task>)
        requires
            self.wf(),
        ensures
            match r {
                Some(task) => self@.contains(id as nat) && task@ == self@.task(id as nat),
                None => !self@.contains(id as nat),
            },
    {
        match self.position(id) {
            Some(i) => {
                proof {
                    self.lemma_place(i as int, id as nat);
                }
                Some(&self.tasks[i])
            },
            None => None,
        }
    }

    /// In a well-formed tracker the task with a given id stands at one place
    /// only.
    proof fn lemma_place(&self, i: int, id: nat)
        requires
            self.wf(),
            0 <= i < self.tasks@.len(),
            self.tasks@[i]@.id == id,
        ensures
            self@.contains(id),
            self@.index_of(id) == i,
            self@.task(id) == self.tasks@[i]@,
            forall|j: int| 0 <= j < self@.tasks.len() && j != i ==> (#[trigger] self@.tasks[j]).id != id,
    {
        assert(self@.tasks[i].id == id);
        let k = self@.index_of(id);
        if k < i {
            assert(self@.tasks[k].id < self@.tasks[i].id);
        } else if i < k {
            assert(self@.tasks[i].id < self@.tasks[k].id);
        }
        assert forall|j: int| 0 <= j < self@.tasks.len() && j != i implies (
        #[trigger] self@.tasks[j]).id != id by {
            if j < i {
                assert(self@.tasks[j].id < self@.tasks[i].id);
            } else {
                assert(self@.tasks[i].id < self@.tasks[j].id);
            }
        }
    }

    /// Adds a task with `description`, recorded at `now`. Its id is the one
    /// after the highest ever given out.
    pub fn add_at(&mut self, description: String, now: Timestamp)
        requires
            old(self).wf(),
            old(self)@.last_id < usize::MAX,
        ensures
            final(self)@ == old(self)@.added(description@, now),
            final(self).wf(),
    {
        let next_id: usize = self.last_id + 1;
        let task = Task::new(next_id, description, now);
        self.tasks.push(task);
        self.last_id = next_id;
        assert(self@.tasks =~= old(self)@.added(description@, now).tasks);
    }

    /// Adds a task with `description`, recorded at the time that the clock
    /// shows.
    ///
    /// # Panics
    ///
    /// Reading the clock panics where the system clock stands before 1970 or
    /// the system's zone data give no local offset for the present instant.
    pub fn add(&mut self, description: String)
        requires
            old(self).wf(),
            old(self)@.last_id < usize::MAX,
        ensures
            exists|now: Timestamp| final(self)@ == #[trigger] old(self)@.added(description@, now),
            final(self).wf(),
    {
        let now = clock_now();
        self.add_at(description, now);
    }

    /// Replaces the description of the task `id`, at `now`.
    pub fn update_at(&mut self, id: usize, description: String, now: Timestamp) -> (r: Result<
        (),
        Error,
    >)
        requires
            old(self).wf(),
        ensures
            old(self)@.contains(id as nat) ==> r is Ok && final(self)@ == old(self)@.updated(
                id as nat,
                description@,
                now,
            ),
            !old(self)@.contains(id as nat) ==> r == Err::<(), Error>(Error::NotFound(id))
                && *final(self) == *old(self),
            final(self).wf(),
    {
        match self.position(id) {
            Some(i) => {
                proof {
                    self.lemma_place(i as int, id as nat);
                }
                self.tasks[i].with_description(description, now);
                assert(self@.tasks =~= old(self)@.updated(id as nat, description@, now).tasks);
                Ok(())
            },
            None => Err(Error::NotFound(id)),
        }
    }

    /// Replaces the description of the task `id`, at the time that the clock
    /// shows.
    ///
    /// # Panics
    ///
    /// Reading the clock panics where the system clock stands before 1970 or
    /// the system's zone data give no local offset for the present instant.
    pub fn update(&mut self, id: usize, description: String) -> (r: Result<(), Error>)
        requires
            old(self).wf(),
        ensures
            old(self)@.contains(id as nat) ==> r is Ok && exists|now: Timestamp|
                final(self)@ == #[trigger] old(self)@.updated(id as nat, description@, now),
            !old(self)@.contains(id as nat) ==> r == Err::<(), Error>(Error::NotFound(id))
                && *final(self) == *old(self),
            final(self).wf(),
    {
        let now = clock_now();
        self.update_at(id, description, now)
    }

    /// Sets the status of the task `id`, at `now`.
    pub fn mark_status_at(&mut self, id: usize, status: Status, now: Timestamp) -> (r: Result<
        (),
        Error,
    >)
        requires
            old(self).wf(),
        ensures
            old(self)@.contains(id as nat) ==> r is Ok && final(self)@ == old(self)@.marked(
                id as nat,
                status,
                now,
            ),
            !old(self)@.contains(id as nat) ==> r == Err::<(), Error>(Error::NotFound(id))
                && *final(self) == *old(self),
            final(self).wf(),
    {
        match self.position(id) {
            Some(i) => {
                proof {
                    self.lemma_place(i as int, id as nat);
                }
                self.tasks[i].with_status(status, now);
                assert(self@.tasks =~= old(self)@.marked(id as nat, status, now).tasks);
                Ok(())
            },
            None => Err(Error::NotFound(id)),
        }
    }

    /// Sets the status of the task `id`, at the time that the clock shows.
    ///
    /// # Panics
    ///
    /// Reading the clock panics where the system clock stands before 1970 or
    /// the system's zone data give no local offset for the present instant.
    pub fn mark_status(&mut self, id: usize, status: Status) -> (r: Result<(), Error>)
        requires
            old(self).wf(),
        ensures
            old(self)@.contains(id as nat) ==> r is Ok && exists|now: Timestamp|
                final(self)@ == #[trigger] old(self)@.marked(id as nat, status, now),
            !old(self)@.contains(id as nat) ==> r == Err::<(), Error>(Error::NotFound(id))
                && *final(self) == *old(self),
            final(self).wf(),
    {
        let now = clock_now();
        self.mark_status_at(id, status, now)
    }

    /// Removes the task `id`. The other tasks keep their ids and their order.
    pub fn delete(&mut self, id: usize) -> (r: Result<(), Error>)
        requires
            old(self).wf(),
        ensures
            old(self)@.contains(id as nat) ==> r is Ok && final(self)@ == old(self)@.deleted(
                id as nat,
            ),
            !old(self)@.contains(id as nat) ==> r == Err::<(), Error>(Error::NotFound(id))
                && *final(self) == *old(self),
            final(self).wf(),
    {
        match self.position(id) {
            Some(i) => {
                proof {
                    self.lemma_place(i as int, id as nat);
                    lemma_filter_removes(self@.tasks, i as int, id as nat);
                }
                let _ = self.tasks.remove(i);
                assert(self@.tasks =~= old(self)@.tasks.remove(i as int));
                Ok(())
            },
            None => Err(Error::NotFound(id)),
        }
    }

    /// The tasks with the status `status`, or all tasks where it is `None`,
    /// in the order in which they were added.
    pub fn list(&self, status: Option<Status>) -> (r: Vec<&Task>)
        ensures
            ref_views(r@) == self@.listed(status),
    {
        let mut out: Vec<&Task> = Vec::new();
        let mut i: usize = 0;
        proof {
            reveal(Seq::filter);
        }
        while i < self.tasks.len()
            invariant
                i <= self.tasks@.len(),
                ref_views(out@) == self@.tasks.take(i as int).filter(shows(status)),
            decreases self.tasks@.len() - i,
        {
            let task = &self.tasks[i];
            let wanted = match status {
                Some(s) => task.status() == s,
                None => true,
            };
            proof {
                assert(self@.tasks.take(i + 1) =~= self@.tasks.take(i as int).push(task@));
                lemma_filter_push(self@.tasks.take(i as int), task@, shows(status));
            }
            if wanted {
                out.push(task);
            }
            i += 1;
        }
        assert(self@.tasks.take(i as int) =~= self@.tasks);
        out
    }

    /// Applies `action` at `now`. A listing yields the tasks to show, any
    /// other action that succeeds yields none, and an action on an id that no
    /// task has leaves the tracker as it was.
    pub fn process_action_at(&mut self, action: Action, now: Timestamp) -> (r: Result<
        Vec<&Task>,
        Error,
    >)
        requires
            old(self).wf(),
            action is Add ==> old(self)@.last_id < usize::MAX,
        ensures
            (final(self)@, outcome_view(r)) == old(self)@.step(action@, now),
            r is Err ==> *final(self) == *old(self),
            final(self).wf(),
    {
        match action {
            Action::Add(description) => {
                self.add_at(description, now);
                shown_nothing(Ok(()))
            },
            Action::Update { id, description } => shown_nothing(
                self.update_at(id, description, now),
            ),
            Action::Delete(id) => shown_nothing(self.delete(id)),
            Action::MarkInProgress(id) => shown_nothing(
                self.mark_status_at(id, Status::InProgress, now),
            ),
            Action::MarkDone(id) => shown_nothing(self.mark_status_at(id, Status::Done, now)),
            Action::List(filter) => Ok(self.list(filter)),
        }
    }

    /// Applies `action` at the time that the clock shows.
    ///
    /// # Panics
    ///
    /// Reading the clock panics where the system clock stands before 1970 or
    /// the system's zone data give no local offset for the present instant.
    pub fn process_action(&mut self, action: Action) -> (r: Result<Vec<&Task>, Error>)
        requires
            old(self).wf(),
            action is Add ==> old(self)@.last_id < usize::MAX,
        ensures
            exists|now: Timestamp|
                (final(self)@, outcome_view(r)) == #[trigger] old(self)@.step(action@, now),
            r is Err ==> *final(self) == *old(self),
            final(self).wf(),
    {
        let now = clock_now();
        self.process_action_at(action, now)
    }
}

impl Default for Tracker {
    /// A tracker that holds nothing.
    fn default() -> (r: Tracker)
        ensures
            r@ == TrackerView::empty(),
            r.wf(),
    {
        Tracker::new()
    }
}

} // verus!
