//! The `list` subcommand.

use crate::storage::TaskStore;
use crate::tasks::TaskView;
use crate::text::{decimal, decimal_digits};
use vstd::prelude::*;

verus! {

/// The line that stands for a task at `position`: the position, a dot, the
/// mark in square brackets (`x` for a done task, a space for a pending
/// one), and the description.
pub open spec fn list_line(position: nat, task: TaskView) -> Seq<char> {
    decimal_digits(position) + seq!['.', ' ', '[', if task.done {
        'x'
    } else {
        ' '
    }, ']', ' '] + task.description
}

/// The lines of a whole listing, positions counting from 1.
pub open spec fn list_lines(tasks: Seq<TaskView>) -> Seq<Seq<char>> {
    Seq::new(tasks.len(), |i: int| list_line((i + 1) as nat, tasks[i]))
}

/// The text of each of `lines`.
pub open spec fn line_texts(lines: Seq<String>) -> Seq<Seq<char>> {
    lines.map_values(|line: String| line@)
}

/// The lines to print for the store, one for each task in order.
pub fn handle_list(store: &TaskStore) -> (lines: Vec<String>)
    ensures
        line_texts(lines@) == list_lines(store@),
{
    let tasks = store.tasks();
    let mut lines: Vec<String> = Vec::new();
    let mut i: usize = 0;
    while i < tasks.len()
        invariant
            i <= tasks.len(),
            lines@.len() == i,
            forall|j: int|
                0 <= j < i ==> (#[trigger] lines@[j])@ == list_line((j + 1) as nat, tasks@[j]@),
        decreases tasks.len() - i,
    {
        let task = &tasks[i];
        let mut line = decimal(i + 1);
        proof {
            reveal_strlit(". [x] ");
            reveal_strlit(". [ ] ");
        }
        if task.done {
            line.append(". [x] ");
        } else {
            line.append(". [ ] ");
        }
        line.append(task.description.as_str());
        assert(line@ =~= list_line((i + 1) as nat, task@));
        lines.push(line);
        i = i + 1;
    }
    assert(line_texts(lines@) =~= list_lines(store@));
    lines
}

} // verus!
