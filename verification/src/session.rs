//! One running front end: the store and the settings it owns, the events
//! that reach it, and what is to be written out after each.
//!
//! The front end performs the action that `Session::apply` names and comes
//! back with the next event. Every change of state is followed by a write of
//! the whole snapshot; nothing is batched.

use crate::settings::Settings;
use crate::shell::{add_task, added_task, in_range, remove_task, toggle_task};
use crate::storage::{IndexError, TaskStore};
use crate::tasks::{text_of, TaskView};
use crate::text::blank;
use vstd::prelude::*;

verus! {

/// Something the user did.
#[derive(Debug, PartialEq, Eq)]
pub enum Event {
    /// The theme was chosen.
    SetDarkMode(bool),
    /// A new task was entered: its description, and the deadline and the
    /// category as far as they were given.
    Add { description: String, deadline: Option<String>, category: Option<String> },
    /// The completion mark of the task at this position was clicked.
    Toggle(usize),
    /// The task at this position was deleted.
    Remove(usize),
    /// Saving was asked for.
    Save,
}

/// What the front end has to do after an event.
#[derive(Clone, Copy, Debug, PartialEq, Eq, Structural)]
pub enum Action {
    /// Nothing changed; nothing is to be written.
    Nothing,
    /// Write the tasks out.
    SaveTasks,
    /// Write the settings out.
    SaveSettings,
}

/// The state of a running front end.
#[derive(Debug, PartialEq, Eq)]
pub struct Session {
    pub store: TaskStore,
    pub settings: Settings,
}

/// The tasks after `event`, given the tasks before it.
pub open spec fn tasks_after(event: Event, before: Seq<TaskView>) -> Seq<TaskView> {
    match event {
        Event::Add { description, deadline, category } => if blank(description@) {
            before
        } else {
            before.push(added_task(description@, text_of(deadline), text_of(category)))
        },
        Event::Toggle(position) => if in_range(position, before.len()) {
            before.update(position - 1, before[position - 1].toggled())
        } else {
            before
        },
        Event::Remove(position) => if in_range(position, before.len()) {
            before.remove(position - 1)
        } else {
            before
        },
        Event::SetDarkMode(_) => before,
        Event::Save => before,
    }
}

/// The settings after `event`, given the settings before it.
pub open spec fn settings_after(event: Event, before: Settings) -> Settings {
    match event {
        Event::SetDarkMode(dark_mode) => Settings { dark_mode },
        _ => before,
    }
}

/// What `event` asks of the front end, given the state before it: a write
/// of what changed, nothing where nothing changed, or the error for a
/// position that names no task.
pub open spec fn response_to(event: Event, tasks: Seq<TaskView>, settings: Settings) -> Result<
    Action,
    IndexError,
> {
    match event {
        Event::SetDarkMode(dark_mode) => if settings.dark_mode == dark_mode {
            Ok(Action::Nothing)
        } else {
            Ok(Action::SaveSettings)
        },
        Event::Add { description, deadline, category } => if blank(description@) {
            Ok(Action::Nothing)
        } else {
            Ok(Action::SaveTasks)
        },
        Event::Toggle(position) | Event::Remove(position) => if in_range(position, tasks.len()) {
            Ok(Action::SaveTasks)
        } else {
            Err(IndexError { requested: position, len: tasks.len() as usize })
        },
        Event::Save => Ok(Action::SaveTasks),
    }
}

impl Session {
    /// A session over what was loaded.
    pub fn new(store: TaskStore, settings: Settings) -> (session: Session)
        ensures
            session.store == store,
            session.settings == settings,
    {
        Session { store, settings }
    }

    /// Takes one event: changes the state as the event asks and names the
    /// write that is now due.
    pub fn apply(&mut self, event: Event) -> (response: Result<Action, IndexError>)
        ensures
            final(self).store@ == tasks_after(event, old(self).store@),
            final(self).settings == settings_after(event, old(self).settings),
            response == response_to(event, old(self).store@, old(self).settings),
    {
        match event {
            Event::SetDarkMode(dark_mode) => {
                if self.settings.set_dark_mode(dark_mode) {
                    Ok(Action::SaveSettings)
                } else {
                    Ok(Action::Nothing)
                }
            },
            Event::Add { description, deadline, category } => {
                let deadline_text = match &deadline {
                    Some(text) => Some(text.as_str()),
                    None => None,
                };
                let category_text = match &category {
                    Some(text) => Some(text.as_str()),
                    None => None,
                };
                if add_task(&mut self.store, description.as_str(), deadline_text, category_text) {
                    Ok(Action::SaveTasks)
                } else {
                    Ok(Action::Nothing)
                }
            },
            Event::Toggle(position) => {
                match toggle_task(&mut self.store, position) {
                    Ok(()) => Ok(Action::SaveTasks),
                    Err(error) => Err(error),
                }
            },
            Event::Remove(position) => {
                match remove_task(&mut self.store, position) {
                    Ok(_) => Ok(Action::SaveTasks),
                    Err(error) => Err(error),
                }
            },
            Event::Save => Ok(Action::SaveTasks),
        }
    }
}

/// No change goes unwritten: where an event asks for no write or is
/// refused, tasks and settings are what they were; a write of the tasks
/// leaves the settings alone, and a write of the settings the tasks.
pub proof fn lemma_every_change_is_written(event: Event, tasks: Seq<TaskView>, settings: Settings)
    ensures
        response_to(event, tasks, settings) != Ok::<Action, IndexError>(Action::SaveTasks)
            ==> tasks_after(event, tasks) == tasks,
        response_to(event, tasks, settings) != Ok::<Action, IndexError>(Action::SaveSettings)
            ==> settings_after(event, settings) == settings,
{
}

} // verus!
