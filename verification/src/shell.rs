//! The operations a front end drives the store with. Each one leaves the
//! store either changed as stated or exactly as it was, and says which, so
//! that the caller knows when the store is to be written out again.
//!
//! Positions count from 1, as a listing shows them.

use crate::display::PERSONAL;
use crate::storage::{IndexError, TaskStore};
use crate::tasks::{Task, TaskView};
use crate::text::{blank, is_blank, white_space, lemma_trimmed, trim, trimmed};
use vstd::prelude::*;

verus! {

/// The text behind an optional string slice.
pub open spec fn slice_text(text: Option<&str>) -> Option<Seq<char>> {
    match text {
        Some(s) => Some(s@),
        None => None,
    }
}

/// The deadline that is stored for what was entered: the entry trimmed, or
/// none where nothing but whitespace was entered.
pub open spec fn stored_deadline(entered: Option<Seq<char>>) -> Option<Seq<char>> {
    match entered {
        Some(text) => if blank(text) {
            None
        } else {
            Some(trimmed(text))
        },
        None => None,
    }
}

/// The category that is stored for what was chosen: the choice as it is, or
/// the first preset where none was made.
pub open spec fn stored_category(chosen: Option<Seq<char>>) -> Seq<char> {
    match chosen {
        Some(text) => text,
        None => PERSONAL@,
    }
}

/// The task that an accepted request adds.
pub open spec fn added_task(
    description: Seq<char>,
    deadline: Option<Seq<char>>,
    category: Option<Seq<char>>,
) -> TaskView {
    TaskView {
        description: trimmed(description),
        done: false,
        deadline: stored_deadline(deadline),
        category: stored_category(category),
    }
}

/// Adds a pending task for a description that is not blank, and says
/// whether it did. A blank description is ignored: the store stays as it
/// was. The description and the deadline are stored trimmed.
pub fn add_task(
    store: &mut TaskStore,
    description: &str,
    deadline: Option<&str>,
    category: Option<&str>,
) -> (added: bool)
    ensures
        added == !blank(description@),
        added ==> final(store)@ == old(store)@.push(
            added_task(description@, slice_text(deadline), slice_text(category)),
        ),
        !added ==> final(store)@ == old(store)@,
{
    if is_blank(description) {
        return false;
    }
    let deadline = match deadline {
        Some(text) => if is_blank(text) {
            None
        } else {
            Some(trim(text).to_owned())
        },
        None => None,
    };
    let category = match category {
        Some(text) => text.to_owned(),
        None => PERSONAL.to_owned(),
    };
    store.append(Task::new(trim(description).to_owned(), deadline, category));
    true
}

/// What an accepted request stores is a proper task: pending, with a
/// description that is not blank, and with a deadline, if any, that is not
/// blank either.
pub proof fn lemma_added_task_is_not_blank(
    description: Seq<char>,
    deadline: Option<Seq<char>>,
    category: Option<Seq<char>>,
)
    requires
        !blank(description),
    ensures
        !added_task(description, deadline, category).done,
        !blank(added_task(description, deadline, category).description),
        added_task(description, deadline, category).deadline matches Some(text) ==> !blank(text),
{
    lemma_trimmed(description);
    assert(!white_space(trimmed(description)[0]));
    if let Some(text) = deadline {
        if !blank(text) {
            lemma_trimmed(text);
            assert(!white_space(trimmed(text)[0]));
        }
    }
}

/// One line of a listing: a task and the position it stands at.
#[derive(Debug, PartialEq, Eq)]
pub struct TaskRow {
    pub position: usize,
    pub done: bool,
    pub description: String,
    pub deadline: Option<String>,
    pub category: String,
}

/// The mathematical value of a `TaskRow`.
pub ghost struct TaskRowView {
    pub position: nat,
    pub task: TaskView,
}

impl View for TaskRow {
    type V = TaskRowView;

    open spec fn view(&self) -> TaskRowView {
        TaskRowView {
            position: self.position as nat,
            task: TaskView {
                description: self.description@,
                done: self.done,
                deadline: crate::tasks::text_of(self.deadline),
                category: self.category@,
            },
        }
    }
}

/// The listing of `tasks`: each task in order, numbered from 1.
pub open spec fn rows_of(tasks: Seq<TaskView>) -> Seq<TaskRowView> {
    Seq::new(tasks.len(), |i: int| TaskRowView { position: (i + 1) as nat, task: tasks[i] })
}

/// The values of a sequence of rows, in the same order.
pub open spec fn row_views(rows: Seq<TaskRow>) -> Seq<TaskRowView> {
    rows.map_values(|row: TaskRow| row@)
}

/// The tasks in order, each with its position, for showing. The store is
/// only read.
pub fn list_tasks(store: &TaskStore) -> (rows: Vec<TaskRow>)
    ensures
        row_views(rows@) == rows_of(store@),
{
    let tasks = store.tasks();
    let mut rows: Vec<TaskRow> = Vec::new();
    let mut i: usize = 0;
    while i < tasks.len()
        invariant
            i <= tasks.len(),
            rows@.len() == i,
            forall|j: int|
                0 <= j < i ==> (#[trigger] rows@[j])@ == (TaskRowView {
                    position: (j + 1) as nat,
                    task: tasks@[j]@,
                }),
        decreases tasks.len() - i,
    {
        let copy = tasks[i].clone();
        rows.push(
            TaskRow {
                position: i + 1,
                done: copy.done,
                description: copy.description,
                deadline: copy.deadline,
                category: copy.category,
            },
        );
        i = i + 1;
    }
    assert(row_views(rows@) =~= rows_of(store@));
    rows
}

/// Whether `position` names a task of a store that holds `len` tasks.
pub open spec fn in_range(position: usize, len: nat) -> bool {
    1 <= position <= len
}

/// Flips the completion flag of the task at `position`. Where no task
/// stands there, the store stays as it was and the error says so.
pub fn toggle_task(store: &mut TaskStore, position: usize) -> (outcome: Result<(), IndexError>)
    ensures
        match outcome {
            Ok(_) => {
                &&& in_range(position, old(store)@.len())
                &&& final(store)@ == old(store)@.update(
                    position - 1,
                    old(store)@[position - 1].toggled(),
                )
            },
            Err(error) => {
                &&& !in_range(position, old(store)@.len())
                &&& error == (IndexError { requested: position, len: old(store)@.len() as usize })
                &&& final(store)@ == old(store)@
            },
        },
{
    if position == 0 {
        return Err(IndexError { requested: position, len: store.len() });
    }
    match store.toggle_done(position - 1) {
        Ok(()) => Ok(()),
        Err(error) => Err(IndexError { requested: position, len: error.len }),
    }
}

/// Takes out the task at `position` and hands it back; the tasks after it
/// move up by one position. Where no task stands there, the store stays as
/// it was and the error says so.
pub fn remove_task(store: &mut TaskStore, position: usize) -> (outcome: Result<Task, IndexError>)
    ensures
        match outcome {
            Ok(task) => {
                &&& in_range(position, old(store)@.len())
                &&& task@ == old(store)@[position - 1]
                &&& final(store)@ == old(store)@.remove(position - 1)
            },
            Err(error) => {
                &&& !in_range(position, old(store)@.len())
                &&& error == (IndexError { requested: position, len: old(store)@.len() as usize })
                &&& final(store)@ == old(store)@
            },
        },
{
    if position == 0 {
        return Err(IndexError { requested: position, len: store.len() });
    }
    match store.remove(position - 1) {
        Ok(task) => Ok(task),
        Err(error) => Err(IndexError { requested: position, len: error.len }),
    }
}

} // verus!
