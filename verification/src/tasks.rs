//! The task: a description, a completion flag, an optional deadline and a
//! category label.

use crate::dates::{deadline_passed, has_passed, parse_deadline, parsed_date, Date, DEADLINE_FORMAT};
use vstd::prelude::*;

verus! {

/// A single to-do item. Its identity within a store is its position there.
#[derive(Debug, PartialEq, Eq)]
pub struct Task {
    pub description: String,
    pub done: bool,
    /// The deadline as text in `DEADLINE_FORMAT`, or `None` for no deadline.
    pub deadline: Option<String>,
    pub category: String,
}

/// The mathematical value of a `Task`.
pub ghost struct TaskView {
    pub description: Seq<char>,
    pub done: bool,
    pub deadline: Option<Seq<char>>,
    pub category: Seq<char>,
}

/// The text behind an optional string.
pub open spec fn text_of(text: Option<String>) -> Option<Seq<char>> {
    match text {
        Some(s) => Some(s@),
        None => None,
    }
}

impl View for Task {
    type V = TaskView;

    open spec fn view(&self) -> TaskView {
        TaskView {
            description: self.description@,
            done: self.done,
            deadline: text_of(self.deadline),
            category: self.category@,
        }
    }
}

impl TaskView {
    /// The same task with its completion flag flipped.
    pub open spec fn toggled(self) -> TaskView {
        TaskView { done: !self.done, ..self }
    }

    /// The task is overdue on `today`: it is not done, it has a deadline,
    /// the deadline reads as a day, and that day is strictly before `today`.
    pub open spec fn overdue_on(self, today: Date) -> bool {
        &&& !self.done
        &&& self.deadline matches Some(text)
        &&& deadline_passed(parsed_date(text, DEADLINE_FORMAT@), today)
    }
}

impl Task {
    /// A new, pending task. Nothing is validated or altered: the three
    /// values are stored as given.
    pub fn new(description: String, deadline: Option<String>, category: String) -> (task: Task)
        ensures
            task@ == (TaskView {
                description: description@,
                done: false,
                deadline: text_of(deadline),
                category: category@,
            }),
    {
        Task { description, done: false, deadline, category }
    }

    /// Whether the task is overdue on `today`. A deadline that cannot be
    /// read gives no overdue signal.
    pub fn is_overdue(&self, today: Date) -> (overdue: bool)
        ensures
            overdue == self@.overdue_on(today),
    {
        if self.done {
            return false;
        }
        match &self.deadline {
            Some(text) => has_passed(parse_deadline(text.as_str()), today),
            None => false,
        }
    }
}

/// A done task is never overdue, whatever its deadline.
pub proof fn lemma_done_is_not_overdue(task: TaskView, today: Date)
    requires
        task.done,
    ensures
        !task.overdue_on(today),
{
}

/// A task without a deadline, or with one that does not read as a day, is
/// not overdue.
pub proof fn lemma_unreadable_deadline_is_not_overdue(task: TaskView, today: Date)
    requires
        task.deadline matches Some(text) ==> parsed_date(text, DEADLINE_FORMAT@) is None,
    ensures
        !task.overdue_on(today),
{
}

/// A pending task whose deadline reads as the day `due` is overdue exactly
/// when `due` is strictly before `today`: it is not overdue on the day of
/// the deadline itself, nor on any day before it.
pub proof fn lemma_overdue_after_deadline(task: TaskView, due: Date, today: Date)
    requires
        !task.done,
        task.deadline matches Some(text) && parsed_date(text, DEADLINE_FORMAT@) == Some(due),
    ensures
        task.overdue_on(today) <==> due.precedes(today),
        due == today || today.precedes(due) ==> !task.overdue_on(today),
{
}

/// Toggling a task twice gives the task back.
pub proof fn lemma_toggle_twice(task: TaskView)
    ensures
        task.toggled().toggled() == task,
        task.toggled().done != task.done,
{
}

impl Clone for Task {
    fn clone(&self) -> (copy: Task)
        ensures
            copy@ == self@,
    {
        let deadline = match &self.deadline {
            Some(text) => Some(text.clone()),
            None => None,
        };
        Task {
            description: self.description.clone(),
            done: self.done,
            deadline,
            category: self.category.clone(),
        }
    }
}

} // verus!
