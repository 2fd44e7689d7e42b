//! Laws that relate the operations of a tracker to each other. Each is stated
//! over the mathematical model and holds of every well-formed tracker.

use crate::action::ActionView;
use crate::error::ErrorView;
use crate::status::Status;
use crate::task::TaskView;
use crate::time::Timestamp;
use crate::tracker::{lemma_filter_removes, other_than, shows, TrackerView};
use vstd::prelude::*;

verus! {

/// Whether the ids grow along `tasks`.
pub open spec fn ids_grow(tasks: Seq<TaskView>) -> bool {
    forall|i: int, j: int|
        0 <= i < j < tasks.len() ==> (#[trigger] tasks[i]).id < (#[trigger] tasks[j]).id
}

/// The actions of a history, each with the time at which it is applied.
pub type History = Seq<(ActionView, Timestamp)>;

impl TrackerView {
    /// The tracker after every action of `history` was applied in turn.
    pub open spec fn run(self, history: History) -> TrackerView
        decreases history.len(),
    {
        if history.len() == 0 {
            self
        } else {
            self.run(history.drop_last()).step(history.last().0, history.last().1).0
        }
    }
}

impl ActionView {
    /// The id of the task that the action is about, if it is about one.
    pub open spec fn target(self) -> Option<nat> {
        match self {
            ActionView::Add(_) => None,
            ActionView::Update { id, .. } => Some(id),
            ActionView::Delete(id) => Some(id),
            ActionView::MarkInProgress(id) => Some(id),
            ActionView::MarkDone(id) => Some(id),
            ActionView::List(_) => None,
        }
    }
}

/// What is kept of a sequence with growing ids: exactly the elements that
/// are to be kept, each once, in their old order.
pub proof fn lemma_filter_exact(tasks: Seq<TaskView>, keep: spec_fn(TaskView) -> bool)
    requires
        ids_grow(tasks),
    ensures
        ids_grow(tasks.filter(keep)),
        forall|k: int|
            0 <= k < tasks.filter(keep).len() ==> keep(#[trigger] tasks.filter(keep)[k])
                && tasks.contains(tasks.filter(keep)[k]),
        forall|i: int|
            0 <= i < tasks.len() && keep(tasks[i]) ==> tasks.filter(keep).contains(
                #[trigger] tasks[i],
            ),
    decreases tasks.len(),
{
    reveal(Seq::filter);
    if tasks.len() > 0 {
        lemma_filter_exact(tasks.drop_last(), keep);
    }
}

/// Every action keeps a tracker well formed.
pub proof fn law_step_keeps_wf(tracker: TrackerView, action: ActionView, now: Timestamp)
    requires
        tracker.wf(),
    ensures
        tracker.step(action, now).0.wf(),
{
    if let ActionView::Delete(id) = action {
        lemma_filter_exact(tracker.tasks, other_than(id));
    }
}

/// Every history of actions keeps a tracker well formed.
pub proof fn law_run_keeps_wf(tracker: TrackerView, history: History)
    requires
        tracker.wf(),
    ensures
        tracker.run(history).wf(),
    decreases history.len(),
{
    if history.len() > 0 {
        law_run_keeps_wf(tracker, history.drop_last());
        law_step_keeps_wf(tracker.run(history.drop_last()), history.last().0, history.last().1);
    }
}

/// Adding a task and then listing everything shows what was listed before
/// and, after it, exactly one new task: it has the description given, the
/// status `Todo`, and it was last changed when it was recorded.
pub proof fn law_add_then_list(tracker: TrackerView, description: Seq<char>, now: Timestamp)
    requires
        tracker.wf(),
    ensures
        tracker.added(description, now).listed(None) == tracker.listed(None).push(
            TaskView::fresh(tracker.last_id + 1, description, now),
        ),
        tracker.added(description, now).listed(None).last().description == description,
        tracker.added(description, now).listed(None).last().status == Status::Todo,
        tracker.added(description, now).listed(None).last().created_at == tracker.added(
            description,
            now,
        ).listed(None).last().updated_at,
        !tracker.contains(tracker.added(description, now).listed(None).last().id),
{
    law_list_all(tracker);
    law_list_all(tracker.added(description, now));
}

/// Listing without a filter shows every task, in the order in which they
/// were added.
pub proof fn law_list_all(tracker: TrackerView)
    ensures
        tracker.listed(None) == tracker.tasks,
    decreases tracker.tasks.len(),
{
    reveal(Seq::filter);
    if tracker.tasks.len() > 0 {
        law_list_all(TrackerView { tasks: tracker.tasks.drop_last(), ..tracker });
    }
}

/// Listing with a status shows exactly the tasks with that status: each task
/// shown is in the tracker and has the status, each task of the tracker with
/// the status is shown, and the tasks shown stand in the order in which they
/// were added, none of them twice.
pub proof fn law_list_status(tracker: TrackerView, status: Status)
    requires
        tracker.wf(),
    ensures
        forall|k: int|
            0 <= k < tracker.listed(Some(status)).len() ==> (#[trigger] tracker.listed(
                Some(status),
            )[k]).status == status && tracker.tasks.contains(tracker.listed(Some(status))[k]),
        forall|i: int|
            0 <= i < tracker.tasks.len() && tracker.tasks[i].status == status
                ==> tracker.listed(Some(status)).contains(#[trigger] tracker.tasks[i]),
        ids_grow(tracker.listed(Some(status))),
{
    lemma_filter_exact(tracker.tasks, shows(Some(status)));
}

/// A new task gets the id after the highest ever given out, which is above
/// the id of every task in the tracker.
pub proof fn law_added_id_is_new(tracker: TrackerView, description: Seq<char>, now: Timestamp)
    requires
        tracker.wf(),
    ensures
        tracker.added(description, now).tasks.last().id == tracker.last_id + 1,
        forall|i: int|
            0 <= i < tracker.tasks.len() ==> (#[trigger] tracker.tasks[i]).id < tracker.added(
                description,
                now,
            ).tasks.last().id,
        !tracker.contains(tracker.last_id + 1),
{
}

/// Deleting a task and then adding one gives the new task the id after the
/// highest ever given out, not the id that the deleted task had: that id
/// belongs to no task any more.
pub proof fn law_delete_then_add(
    tracker: TrackerView,
    id: nat,
    description: Seq<char>,
    now: Timestamp,
)
    requires
        tracker.wf(),
        tracker.contains(id),
    ensures
        tracker.deleted(id).added(description, now).tasks.last().id == tracker.last_id + 1,
        tracker.deleted(id).added(description, now).tasks.last().id != id,
        !tracker.deleted(id).contains(id),
        !tracker.deleted(id).added(description, now).contains(id),
{
    lemma_filter_exact(tracker.tasks, other_than(id));
}

/// An id that was given out and belongs to no task is never given again:
/// after any history of actions, still no task has it, and the highest id
/// ever given out has not gone down.
pub proof fn law_ids_never_reused(tracker: TrackerView, history: History, id: nat)
    requires
        tracker.wf(),
        id <= tracker.last_id,
        !tracker.contains(id),
    ensures
        !tracker.run(history).contains(id),
        tracker.run(history).last_id >= tracker.last_id,
    decreases history.len(),
{
    if history.len() > 0 {
        let before = tracker.run(history.drop_last());
        let action = history.last().0;
        let now = history.last().1;
        let after = before.step(action, now).0;
        law_ids_never_reused(tracker, history.drop_last(), id);
        law_run_keeps_wf(tracker, history.drop_last());
        match action {
            ActionView::Delete(gone) => {
                lemma_filter_exact(before.tasks, other_than(gone));
                if after.contains(id) {
                    let k = choose|k: int| 0 <= k < after.tasks.len() && after.tasks[k].id == id;
                    if before.contains(gone) {
                        assert(before.tasks.contains(before.tasks.filter(other_than(gone))[k]));
                    }
                    let i = choose|i: int| 0 <= i < before.tasks.len() && before.tasks[i] == after.tasks[k];
                    assert(before.tasks[i].id == id);
                }
            },
            _ => {
                if after.contains(id) {
                    let k = choose|k: int| 0 <= k < after.tasks.len() && after.tasks[k].id == id;
                    if k < before.tasks.len() {
                        assert(before.tasks[k].id == id);
                    }
                }
            },
        }
    }
}

/// A new description touches one task only, and of that task neither the id
/// nor the status nor the time of recording.
pub proof fn law_update_keeps_the_rest(
    tracker: TrackerView,
    id: nat,
    description: Seq<char>,
    now: Timestamp,
)
    ensures
        tracker.updated(id, description, now).last_id == tracker.last_id,
        tracker.updated(id, description, now).tasks.len() == tracker.tasks.len(),
        forall|i: int|
            0 <= i < tracker.tasks.len() ==> {
                let before = #[trigger] tracker.tasks[i];
                let after = tracker.updated(id, description, now).tasks[i];
                &&& after.id == before.id
                &&& after.status == before.status
                &&& after.created_at == before.created_at
                &&& before.id != id ==> after == before
                &&& before.id == id ==> after.description == description
            },
{
}

/// A new status touches one task only, and of that task neither the id nor
/// the description nor the time of recording.
pub proof fn law_mark_keeps_the_rest(tracker: TrackerView, id: nat, status: Status, now: Timestamp)
    ensures
        tracker.marked(id, status, now).last_id == tracker.last_id,
        tracker.marked(id, status, now).tasks.len() == tracker.tasks.len(),
        forall|i: int|
            0 <= i < tracker.tasks.len() ==> {
                let before = #[trigger] tracker.tasks[i];
                let after = tracker.marked(id, status, now).tasks[i];
                &&& after.id == before.id
                &&& after.description == before.description
                &&& after.created_at == before.created_at
                &&& before.id != id ==> after == before
                &&& before.id == id ==> after.status == status
            },
{
}

impl ActionView {
    /// The id of the task that the action dates anew, if it dates one.
    pub open spec fn dated(self) -> Option<nat> {
        match self {
            ActionView::Update { id, .. } => Some(id),
            ActionView::MarkInProgress(id) => Some(id),
            ActionView::MarkDone(id) => Some(id),
            _ => None,
        }
    }
}

/// A change is dated at the time given, whatever that time is. So the change
/// leaves the two times of the task in order exactly where the time given is
/// the time of recording or a later one.
pub proof fn law_change_is_dated(task: TaskView, description: Seq<char>, status: Status, now: Timestamp)
    ensures
        task.described(description, now).updated_at == now,
        task.marked(status, now).updated_at == now,
        task.described(description, now).times_ordered() <==> now.at_or_after(task.created_at),
        task.marked(status, now).times_ordered() <==> now.at_or_after(task.created_at),
{
}

/// A task is never changed before it was recorded, as long as the clock does
/// not show a time before the recording: where the times of every task were
/// in order, and the action dates no task anew or dates it at its recording
/// or later, the times of every task are in order afterwards.
pub proof fn law_times_stay_ordered(tracker: TrackerView, action: ActionView, now: Timestamp)
    requires
        tracker.wf(),
        tracker.times_ordered(),
        action.dated() matches Some(id) ==> (tracker.contains(id) ==> now.at_or_after(
            tracker.task(id).created_at,
        )),
    ensures
        tracker.step(action, now).0.times_ordered(),
{
    let after = tracker.step(action, now).0;
    match action {
        ActionView::Delete(id) => {
            lemma_filter_exact(tracker.tasks, other_than(id));
            assert forall|k: int| 0 <= k < after.tasks.len() implies (
            #[trigger] after.tasks[k]).times_ordered() by {
                if tracker.contains(id) {
                    let i = choose|i: int|
                        0 <= i < tracker.tasks.len() && tracker.tasks[i] == after.tasks[k];
                    assert(tracker.tasks[i].times_ordered());
                }
            }
        },
        ActionView::Add(_) => {
            assert forall|k: int| 0 <= k < after.tasks.len() implies (
            #[trigger] after.tasks[k]).times_ordered() by {
                if k < tracker.tasks.len() {
                    assert(tracker.tasks[k].times_ordered());
                }
            }
        },
        ActionView::List(_) => {},
        _ => {
            let id = action.dated().unwrap();
            if tracker.contains(id) {
                assert forall|k: int| 0 <= k < after.tasks.len() implies (
                #[trigger] after.tasks[k]).times_ordered() by {
                    assert(tracker.tasks[k].times_ordered());
                    if tracker.tasks[k].id == id {
                        lemma_one_place(tracker, k, tracker.index_of(id));
                    }
                }
            }
        },
    }
}

/// Whether no task of `tracker` was recorded or changed after `time`.
pub open spec fn none_after(tracker: TrackerView, time: Timestamp) -> bool {
    forall|i: int|
        0 <= i < tracker.tasks.len() ==> time.at_or_after((#[trigger] tracker.tasks[i]).created_at)
            && time.at_or_after(tracker.tasks[i].updated_at)
}

/// The time of the last action of `history`, or `start` where it has none.
pub open spec fn latest(history: History, start: Timestamp) -> Timestamp {
    if history.len() == 0 {
        start
    } else {
        history.last().1
    }
}

/// Whether the clock never goes back along `history`: each action is applied
/// at the time of the one before it or later, the first at `start` or later.
pub open spec fn clock_runs_forward(history: History, start: Timestamp) -> bool
    decreases history.len(),
{
    history.len() > 0 ==> clock_runs_forward(history.drop_last(), start) && history.last().1.at_or_after(
        latest(history.drop_last(), start),
    )
}

/// With a clock that never goes back, no task is ever changed before it was
/// recorded: where that holds of a tracker none of whose times lies after
/// `start`, it holds after every history of actions that begins at `start`
/// or later.
pub proof fn law_times_ordered_under_a_forward_clock(
    tracker: TrackerView,
    history: History,
    start: Timestamp,
)
    requires
        tracker.wf(),
        tracker.times_ordered(),
        none_after(tracker, start),
        clock_runs_forward(history, start),
    ensures
        tracker.run(history).times_ordered(),
        none_after(tracker.run(history), latest(history, start)),
    decreases history.len(),
{
    if history.len() > 0 {
        let earlier = history.drop_last();
        let before = tracker.run(earlier);
        let action = history.last().0;
        let now = history.last().1;
        let after = before.step(action, now).0;
        law_times_ordered_under_a_forward_clock(tracker, earlier, start);
        law_run_keeps_wf(tracker, earlier);
        let then = latest(earlier, start);
        assert forall|i: int| 0 <= i < before.tasks.len() implies now.at_or_after(
            (#[trigger] before.tasks[i]).created_at,
        ) && now.at_or_after(before.tasks[i].updated_at) by {
            assert(then.at_or_after(before.tasks[i].created_at));
            assert(then.at_or_after(before.tasks[i].updated_at));
        }
        if let Some(id) = action.dated() {
            if before.contains(id) {
                assert(now.at_or_after(before.tasks[before.index_of(id)].created_at));
            }
        }
        law_times_stay_ordered(before, action, now);
        match action {
            ActionView::Delete(id) => {
                lemma_filter_exact(before.tasks, other_than(id));
                assert forall|k: int| 0 <= k < after.tasks.len() implies now.at_or_after(
                    (#[trigger] after.tasks[k]).created_at,
                ) && now.at_or_after(after.tasks[k].updated_at) by {
                    if before.contains(id) {
                        let i = choose|i: int|
                            0 <= i < before.tasks.len() && before.tasks[i] == after.tasks[k];
                        assert(now.at_or_after(before.tasks[i].created_at));
                    }
                }
            },
            ActionView::Add(_) => {
                assert forall|k: int| 0 <= k < after.tasks.len() implies now.at_or_after(
                    (#[trigger] after.tasks[k]).created_at,
                ) && now.at_or_after(after.tasks[k].updated_at) by {
                    if k < before.tasks.len() {
                        assert(now.at_or_after(before.tasks[k].created_at));
                    }
                }
            },
            ActionView::List(_) => {},
            _ => {
                assert forall|k: int| 0 <= k < after.tasks.len() implies now.at_or_after(
                    (#[trigger] after.tasks[k]).created_at,
                ) && now.at_or_after(after.tasks[k].updated_at) by {
                    if before.contains(action.dated().unwrap()) {
                        assert(now.at_or_after(before.tasks[k].created_at));
                    }
                }
            },
        }
    }
}

/// Deleting a task removes that task and no other: the tasks that stay are
/// those with another id, unchanged and in their old order.
pub proof fn law_delete_removes_one(tracker: TrackerView, id: nat)
    requires
        tracker.wf(),
        tracker.contains(id),
    ensures
        tracker.deleted(id).tasks == tracker.tasks.remove(tracker.index_of(id)),
        tracker.deleted(id).tasks.len() == tracker.tasks.len() - 1,
        tracker.deleted(id).last_id == tracker.last_id,
{
    lemma_filter_removes(tracker.tasks, tracker.index_of(id), id);
}

/// Whatever is done to a tracker, a task that stays in it keeps the time at
/// which it was recorded.
pub proof fn law_recording_time_stays(
    tracker: TrackerView,
    action: ActionView,
    now: Timestamp,
    id: nat,
)
    requires
        tracker.wf(),
        tracker.contains(id),
        tracker.step(action, now).0.contains(id),
    ensures
        tracker.step(action, now).0.task(id).created_at == tracker.task(id).created_at,
{
    let after = tracker.step(action, now).0;
    law_step_keeps_wf(tracker, action, now);
    let i = tracker.index_of(id);
    let k = after.index_of(id);
    assert(tracker.tasks[i].id <= tracker.last_id);
    match action {
        ActionView::Delete(gone) => {
            if tracker.contains(gone) {
                lemma_filter_exact(tracker.tasks, other_than(gone));
                assert(tracker.tasks.contains(tracker.tasks.filter(other_than(gone))[k]));
                let j = choose|j: int| 0 <= j < tracker.tasks.len() && tracker.tasks[j] == after.tasks[k];
                lemma_one_place(tracker, i, j);
            }
        },
        ActionView::Add(_) => {
            lemma_one_place(tracker, i, k);
        },
        ActionView::List(_) => {},
        _ => {
            assert(tracker.tasks[k].id == id);
            lemma_one_place(tracker, i, k);
        },
    }
}

/// In a well-formed tracker two places with the same id are the same place.
proof fn lemma_one_place(tracker: TrackerView, i: int, j: int)
    requires
        tracker.wf(),
        0 <= i < tracker.tasks.len(),
        0 <= j < tracker.tasks.len(),
        tracker.tasks[i].id == tracker.tasks[j].id,
    ensures
        i == j,
{
    if i < j {
        assert(tracker.tasks[i].id < tracker.tasks[j].id);
    } else if j < i {
        assert(tracker.tasks[j].id < tracker.tasks[i].id);
    }
}

/// An action on an id that no task has changes nothing and fails with
/// `NotFound`.
pub proof fn law_missing_id_changes_nothing(
    tracker: TrackerView,
    action: ActionView,
    now: Timestamp,
)
    requires
        action.target() matches Some(id) && !tracker.contains(id),
    ensures
        tracker.step(action, now) == (
            tracker,
            Err::<Seq<TaskView>, ErrorView>(ErrorView::NotFound(action.target().unwrap())),
        ),
{
}

/// Listing changes nothing.
pub proof fn law_list_changes_nothing(tracker: TrackerView, filter: Option<Status>, now: Timestamp)
    ensures
        tracker.step(ActionView::List(filter), now).0 == tracker,
{
}

} // verus!
