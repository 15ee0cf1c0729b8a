//! The ordered collection of tasks, and what to make of a snapshot that was
//! read back from durable storage.

use crate::tasks::{Task, TaskView};
use vstd::prelude::*;

verus! {

/// The values of a sequence of tasks, in the same order.
pub open spec fn task_views(tasks: Seq<Task>) -> Seq<TaskView> {
    tasks.map_values(|task: Task| task@)
}

/// The predicate that picks the done tasks.
pub open spec fn is_done() -> spec_fn(TaskView) -> bool {
    |task: TaskView| task.done
}

/// How many of `tasks` are done.
pub open spec fn count_done(tasks: Seq<TaskView>) -> nat {
    tasks.filter(is_done()).len()
}

/// An operation named a position that the store does not have.
#[derive(Clone, Copy, Debug, PartialEq, Eq, Structural)]
pub struct IndexError {
    /// The position that was asked for.
    pub requested: usize,
    /// How many tasks the store held.
    pub len: usize,
}

/// An ordered sequence of tasks. Insertion order is display order, and a
/// task is known by its position alone.
#[derive(Debug, PartialEq, Eq)]
pub struct TaskStore {
    tasks: Vec<Task>,
}

impl View for TaskStore {
    type V = Seq<TaskView>;

    closed spec fn view(&self) -> Seq<TaskView> {
        task_views(self.tasks@)
    }
}

impl TaskStore {
    /// The empty store.
    pub fn new() -> (store: TaskStore)
        ensures
            store@ == Seq::<TaskView>::empty(),
    {
        let store = TaskStore { tasks: Vec::new() };
        assert(store@ =~= Seq::<TaskView>::empty());
        store
    }

    /// A store that holds `tasks` in the given order.
    pub fn from_tasks(tasks: Vec<Task>) -> (store: TaskStore)
        ensures
            store@ == task_views(tasks@),
    {
        TaskStore { tasks }
    }

    /// The tasks in order, for reading.
    pub fn tasks(&self) -> (tasks: &Vec<Task>)
        ensures
            task_views(tasks@) == self@,
    {
        &self.tasks
    }

    /// Gives up the store for its tasks, in order.
    pub fn into_tasks(self) -> (tasks: Vec<Task>)
        ensures
            task_views(tasks@) == self@,
    {
        self.tasks
    }

    pub fn len(&self) -> (len: usize)
        ensures
            len == self@.len(),
    {
        self.tasks.len()
    }

    pub fn is_empty(&self) -> (empty: bool)
        ensures
            empty == (self@.len() == 0),
    {
        self.tasks.len() == 0
    }

    /// The task at `index`, or `None` beyond the end.
    pub fn get(&self, index: usize) -> (task: Option<&Task>)
        ensures
            match task {
                Some(found) => index < self@.len() && found@ == self@[index as int],
                None => index >= self@.len(),
            },
    {
        if index < self.tasks.len() {
            Some(&self.tasks[index])
        } else {
            None
        }
    }

    /// Adds `task` at the end. Every earlier task keeps its position.
    pub fn append(&mut self, task: Task)
        ensures
            final(self)@ == old(self)@.push(task@),
    {
        self.tasks.push(task);
        assert(self@ =~= old(self)@.push(task@));
    }

    /// Flips the completion flag of the task at `index`, in either
    /// direction. Beyond the end nothing changes and the error says so.
    pub fn toggle_done(&mut self, index: usize) -> (outcome: Result<(), IndexError>)
        ensures
            match outcome {
                Ok(_) => {
                    &&& index < old(self)@.len()
                    &&& final(self)@ == old(self)@.update(
                        index as int,
                        old(self)@[index as int].toggled(),
                    )
                },
                Err(error) => {
                    &&& index >= old(self)@.len()
                    &&& error == (IndexError { requested: index, len: old(self)@.len() as usize })
                    &&& final(self)@ == old(self)@
                },
            },
    {
        let len = self.tasks.len();
        if index >= len {
            return Err(IndexError { requested: index, len });
        }
        let task = &mut self.tasks[index];
        task.done = !task.done;
        assert(self@ =~= old(self)@.update(index as int, old(self)@[index as int].toggled()));
        Ok(())
    }

    /// Takes out the task at `index` and hands it back; the tasks after it
    /// move down by one. Beyond the end nothing changes and the error says so.
    pub fn remove(&mut self, index: usize) -> (outcome: Result<Task, IndexError>)
        ensures
            match outcome {
                Ok(task) => {
                    &&& index < old(self)@.len()
                    &&& task@ == old(self)@[index as int]
                    &&& final(self)@ == old(self)@.remove(index as int)
                },
                Err(error) => {
                    &&& index >= old(self)@.len()
                    &&& error == (IndexError { requested: index, len: old(self)@.len() as usize })
                    &&& final(self)@ == old(self)@
                },
            },
    {
        let len = self.tasks.len();
        if index >= len {
            return Err(IndexError { requested: index, len });
        }
        let task = self.tasks.remove(index);
        assert(self@ =~= old(self)@.remove(index as int));
        Ok(task)
    }

    /// How many tasks are done.
    pub fn done_count(&self) -> (count: usize)
        ensures
            count == count_done(self@),
    {
        let mut count: usize = 0;
        let mut i: usize = 0;
        proof {
            assert(self@.take(0) =~= Seq::<TaskView>::empty());
            reveal(Seq::filter);
        }
        while i < self.tasks.len()
            invariant
                i <= self.tasks.len(),
                self@ == task_views(self.tasks@),
                count == count_done(self@.take(i as int)),
                count <= i,
            decreases self.tasks.len() - i,
        {
            proof {
                let seen = self@.take(i as int);
                seen.lemma_filter_len_push(is_done(), self@[i as int]);
                assert(seen.push(self@[i as int]) =~= self@.take(i + 1));
            }
            if self.tasks[i].done {
                count = count + 1;
            }
            i = i + 1;
        }
        assert(self@.take(i as int) =~= self@);
        count
    }
}

impl Default for TaskStore {
    fn default() -> (store: TaskStore)
        ensures
            store@ == Seq::<TaskView>::empty(),
    {
        TaskStore::new()
    }
}

impl Clone for TaskStore {
    fn clone(&self) -> (copy: TaskStore)
        ensures
            copy@ == self@,
    {
        let mut tasks: Vec<Task> = Vec::new();
        let mut i: usize = 0;
        while i < self.tasks.len()
            invariant
                i <= self.tasks.len(),
                tasks@.len() == i,
                forall|j: int| 0 <= j < i ==> (#[trigger] tasks@[j])@ == self.tasks@[j]@,
            decreases self.tasks.len() - i,
        {
            tasks.push(self.tasks[i].clone());
            i = i + 1;
        }
        assert(task_views(tasks@) =~= task_views(self.tasks@));
        TaskStore { tasks }
    }
}

/// The store to start from, given what was read back from durable storage:
/// the snapshot as it is, every task in its place, or the empty store where
/// there was no file or its contents were not a sequence of tasks. Loading
/// never fails.
pub fn load_tasks(snapshot: Option<Vec<Task>>) -> (store: TaskStore)
    ensures
        store@ == loaded(snapshot),
{
    match snapshot {
        Some(tasks) => TaskStore::from_tasks(tasks),
        None => TaskStore::new(),
    }
}

/// What loading makes of a snapshot.
pub open spec fn loaded(snapshot: Option<Vec<Task>>) -> Seq<TaskView> {
    match snapshot {
        Some(tasks) => task_views(tasks@),
        None => Seq::empty(),
    }
}

/// The snapshot to write out for a store: the full sequence of its tasks,
/// in order. Writing it replaces whatever was stored before.
pub fn save_tasks(store: &TaskStore) -> (snapshot: Vec<Task>)
    ensures
        task_views(snapshot@) == store@,
{
    store.clone().into_tasks()
}

/// Saving and loading give the store back: a snapshot of a store loads as
/// the same tasks with the same values, in the same order.
pub proof fn lemma_saved_snapshot_loads_back(store: TaskStore, snapshot: Vec<Task>)
    requires
        task_views(snapshot@) == store@,
    ensures
        loaded(Some(snapshot)) == store@,
{
}

/// A store whose tasks are all done has as many done tasks as tasks, and
/// the empty store has none.
pub proof fn lemma_count_done_all(tasks: Seq<TaskView>)
    requires
        forall|i: int| 0 <= i < tasks.len() ==> (#[trigger] tasks[i]).done,
    ensures
        count_done(tasks) == tasks.len(),
    decreases tasks.len(),
{
    reveal(Seq::filter);
    if tasks.len() > 0 {
        let rest = tasks.drop_last();
        lemma_count_done_all(rest);
        rest.lemma_filter_len_push(is_done(), tasks.last());
        assert(rest.push(tasks.last()) =~= tasks);
    }
}

/// No more tasks are done than there are.
pub proof fn lemma_count_done_bounded(tasks: Seq<TaskView>)
    ensures
        count_done(tasks) <= tasks.len(),
{
    tasks.lemma_filter_len(is_done());
}

} // verus!
