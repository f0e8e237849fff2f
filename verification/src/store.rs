//! The task list store: the ordered collection of tasks, the current
//! application mode, and the update step that applies one message at a time.

use vstd::prelude::*;

verus! {

/// The application's mode. Exactly one is active at a time; the store only
/// records it (no behaviour branches on it yet).
#[derive(Clone, Copy, Debug, PartialEq, Eq, Structural)]
pub enum AppMode {
    View,
    Edit,
    Export,
}

/// A single to-do item: a label, immutable after creation, and a completion
/// flag that starts out false.
pub struct Task {
    pub name: String,
    pub completed: bool,
}

/// The mathematical value of a task: the label's characters and the flag.
#[verifier::ext_equal]
pub ghost struct TaskSnapshot {
    pub name: Seq<char>,
    pub completed: bool,
}

impl View for Task {
    type V = TaskSnapshot;

    open spec fn view(&self) -> TaskSnapshot {
        TaskSnapshot { name: self.name@, completed: self.completed }
    }
}

impl Task {
    /// Builds a task as insertion does: the given label, not yet completed.
    pub fn new(name: String) -> (task: Task)
        ensures
            task@.name == name@,
            !task@.completed,
    {
        Task { name, completed: false }
    }
}

/// What the view layer must show for one task row: the label text, the
/// checkbox state, and whether the label is struck through.
pub struct RowState {
    pub text: String,
    pub checked: bool,
    pub struck: bool,
}

impl Task {
    /// The compute side of rendering one row: the label shows the name, the
    /// checkbox mirrors the completion flag, and the strikethrough is applied
    /// when and only when the task is completed. The result depends on the
    /// task alone, so re-rendering an unchanged task never toggles anything.
    pub fn row_state(&self) -> (row: RowState)
        ensures
            row.text@ == self@.name,
            row.checked == self@.completed,
            row.struck == self@.completed,
    {
        RowState { text: self.name.clone(), checked: self.completed, struck: self.completed }
    }
}

/// One intended state change, produced by an input event and consumed exactly
/// once by the update step.
pub enum AppMsg {
    /// Replace the current mode.
    SetMode(AppMode),
    /// Set the completion flag of the task at the given position; a stale
    /// position is a silent no-op.
    SetCompleted((usize, bool)),
    /// Append a task with the entered text; empty text is accepted.
    AddEntry(String),
}

/// The store's state: the ordered task list (insertion order is the display
/// order) and the current mode.
pub struct AppModel {
    pub tasks: Vec<Task>,
    pub mode: AppMode,
}

/// The mathematical value of the store.
#[verifier::ext_equal]
pub ghost struct StoreSnapshot {
    pub tasks: Seq<TaskSnapshot>,
    pub mode: AppMode,
}

impl View for AppModel {
    type V = StoreSnapshot;

    open spec fn view(&self) -> StoreSnapshot {
        StoreSnapshot { tasks: self.tasks@.map_values(|t: Task| t@), mode: self.mode }
    }
}

/// Insertion of a fresh task, at the head or the tail of the list.
pub open spec fn spec_add_task(tasks: Seq<TaskSnapshot>, name: Seq<char>, at_front: bool) -> Seq<
    TaskSnapshot,
> {
    let task = TaskSnapshot { name, completed: false };
    if at_front {
        seq![task] + tasks
    } else {
        tasks.push(task)
    }
}

/// Setting one task's completion flag. An index that resolves to no task
/// leaves the list exactly as it was: the silent-miss contract.
pub open spec fn spec_set_completed(tasks: Seq<TaskSnapshot>, index: int, value: bool) -> Seq<
    TaskSnapshot,
> {
    if 0 <= index < tasks.len() {
        tasks.update(index, TaskSnapshot { name: tasks[index].name, completed: value })
    } else {
        tasks
    }
}

/// The whole update step, one message at a time.
pub open spec fn spec_update(s: StoreSnapshot, msg: AppMsg) -> StoreSnapshot {
    match msg {
        AppMsg::SetMode(mode) => StoreSnapshot { tasks: s.tasks, mode },
        AppMsg::SetCompleted((index, value)) => StoreSnapshot {
            tasks: spec_set_completed(s.tasks, index as int, value),
            mode: s.mode,
        },
        AppMsg::AddEntry(name) => StoreSnapshot {
            tasks: spec_add_task(s.tasks, name@, false),
            mode: s.mode,
        },
    }
}

impl AppModel {
    /// The store as the application starts: no tasks, viewing mode.
    pub fn new() -> (store: AppModel)
        ensures
            store@.tasks == Seq::<TaskSnapshot>::empty(),
            store@.mode == AppMode::View,
    {
        let store = AppModel { tasks: Vec::new(), mode: AppMode::View };
        proof {
            assert(store@.tasks =~= Seq::<TaskSnapshot>::empty());
        }
        store
    }

    /// Replaces the current mode, unconditionally. A mode change never
    /// alters the task list.
    pub fn set_mode(&mut self, mode: AppMode)
        ensures
            final(self)@.mode == mode,
            final(self)@.tasks == old(self)@.tasks,
    {
        self.mode = mode;
    }

    /// Sets the completion flag of the task at `index` to `value`. When the
    /// index no longer resolves to a task, the whole store is left untouched:
    /// a checkbox event from a stale row must neither fail nor corrupt state.
    pub fn set_completed(&mut self, index: usize, value: bool)
        ensures
            final(self)@.tasks == spec_set_completed(old(self)@.tasks, index as int, value),
            final(self)@.mode == old(self)@.mode,
    {
        if index < self.tasks.len() {
            let task = &mut self.tasks[index];
            task.completed = value;
        }
        proof {
            assert(self@.tasks =~= spec_set_completed(old(self)@.tasks, index as int, value));
        }
    }

    /// Inserts a task with the given name, not yet completed, at the head
    /// when `at_front` holds and at the tail otherwise. Always succeeds; the
    /// name is not validated, so an empty label is accepted.
    pub fn add_task(&mut self, name: String, at_front: bool)
        ensures
            final(self)@.tasks == spec_add_task(old(self)@.tasks, name@, at_front),
            final(self)@.mode == old(self)@.mode,
    {
        let task = Task { name, completed: false };
        if at_front {
            self.tasks.insert(0, task);
        } else {
            self.tasks.push(task);
        }
        proof {
            assert(self@.tasks =~= spec_add_task(old(self)@.tasks, name@, at_front));
        }
    }

    /// The update step: applies one message to the store and reports that
    /// the event loop should keep running, as every message is handled.
    pub fn update(&mut self, msg: AppMsg) -> (keep_running: bool)
        ensures
            keep_running,
            final(self)@ == spec_update(old(self)@, msg),
    {
        match msg {
            AppMsg::SetMode(mode) => {
                self.set_mode(mode);
            },
            AppMsg::SetCompleted((index, value)) => {
                self.set_completed(index, value);
            },
            AppMsg::AddEntry(name) => {
                self.add_task(name, false);
            },
        }
        true
    }
}

/// The list that a run of insertions alone builds from an empty store: one
/// entry of `adds` per call, giving the name and the at-front flag, applied
/// in order.
pub open spec fn tasks_after_adds(adds: Seq<(Seq<char>, bool)>) -> Seq<TaskSnapshot>
    decreases adds.len(),
{
    if adds.len() == 0 {
        Seq::empty()
    } else {
        spec_add_task(tasks_after_adds(adds.drop_last()), adds.last().0, adds.last().1)
    }
}

/// Law: any sequence of insertions into an empty store yields exactly one
/// task per call, and every task inserted this way is not completed.
pub proof fn lemma_adds_one_task_each(adds: Seq<(Seq<char>, bool)>)
    ensures
        tasks_after_adds(adds).len() == adds.len(),
        forall|i: int|
            0 <= i < adds.len() ==> !(#[trigger] tasks_after_adds(adds)[i]).completed,
    decreases adds.len(),
{
    if adds.len() > 0 {
        lemma_adds_one_task_each(adds.drop_last());
        let prev = tasks_after_adds(adds.drop_last());
        let task = TaskSnapshot { name: adds.last().0, completed: false };
        assert forall|i: int|
            0 <= i < adds.len() implies !(#[trigger] tasks_after_adds(adds)[i]).completed by {
            if adds.last().1 {
                if i == 0 {
                    assert(tasks_after_adds(adds)[i] == task);
                } else {
                    assert(tasks_after_adds(adds)[i] == prev[i - 1]);
                }
            } else {
                if i < prev.len() {
                    assert(tasks_after_adds(adds)[i] == prev[i]);
                } else {
                    assert(tasks_after_adds(adds)[i] == task);
                }
            }
        }
    }
}

/// Law: setting one task's completion flag is idempotent — doing it a second
/// time with the same address and value changes nothing further.
pub proof fn lemma_set_completed_idempotent(tasks: Seq<TaskSnapshot>, index: int, value: bool)
    ensures
        spec_set_completed(spec_set_completed(tasks, index, value), index, value)
            == spec_set_completed(tasks, index, value),
{
    assert(spec_set_completed(spec_set_completed(tasks, index, value), index, value)
        =~= spec_set_completed(tasks, index, value));
}

/// Law: setting a completion flag touches the addressed task's flag alone.
/// Every other task keeps its state, the list keeps its length, the addressed
/// task keeps its name, and an address that resolves to no task leaves the
/// list exactly as it was.
pub proof fn lemma_set_completed_frame(tasks: Seq<TaskSnapshot>, index: int, value: bool)
    ensures
        spec_set_completed(tasks, index, value).len() == tasks.len(),
        forall|j: int|
            0 <= j < tasks.len() && j != index ==> spec_set_completed(tasks, index, value)[j]
                == tasks[j],
        0 <= index < tasks.len() ==> spec_set_completed(tasks, index, value)[index]
            == (TaskSnapshot { name: tasks[index].name, completed: value }),
        !(0 <= index < tasks.len()) ==> spec_set_completed(tasks, index, value) == tasks,
{
}

} // verus!
