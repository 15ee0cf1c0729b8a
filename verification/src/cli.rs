//! The command line: which subcommand was given, and what running it does.

use crate::commands::add::{handle_add, ADDED};
use crate::commands::list::{handle_list, line_texts, list_lines};
use crate::shell::added_task;
use crate::storage::TaskStore;
use crate::tasks::TaskView;
use crate::text::blank;
use vstd::prelude::*;

verus! {

/// A subcommand with its arguments.
#[derive(Debug, PartialEq, Eq)]
pub enum Commands {
    /// Add a task with this description.
    Add { description: String },
    /// Print the tasks.
    List,
}

/// A parsed command line.
#[derive(Debug, PartialEq, Eq)]
pub struct Cli {
    command: Commands,
}

/// What running a command line gave: the lines to print, and whether the
/// store changed and is to be written out.
#[derive(Debug, PartialEq, Eq)]
pub struct Outcome {
    pub output: Vec<String>,
    pub changed: bool,
}

impl Cli {
    pub closed spec fn command_spec(self) -> Commands {
        self.command
    }

    pub fn new(command: Commands) -> (cli: Cli)
        ensures
            cli.command_spec() == command,
    {
        Cli { command }
    }

    /// The subcommand that was given.
    pub fn command(&self) -> (command: &Commands)
        ensures
            *command == self.command_spec(),
    {
        &self.command
    }

    /// The store that running the command leaves behind.
    pub open spec fn store_after(self, before: Seq<TaskView>) -> Seq<TaskView> {
        match self.command_spec() {
            Commands::Add { description } => if blank(description@) {
                before
            } else {
                before.push(added_task(description@, None, None))
            },
            Commands::List => before,
        }
    }

    /// The lines that running the command prints.
    pub open spec fn output_for(self, before: Seq<TaskView>) -> Seq<Seq<char>> {
        match self.command_spec() {
            Commands::Add { description } => if blank(description@) {
                Seq::empty()
            } else {
                seq![ADDED@]
            },
            Commands::List => list_lines(before),
        }
    }

    /// Runs the subcommand on `store`. `add` with a description that is not
    /// blank appends a task and prints the confirmation; with a blank one it
    /// does and prints nothing. `list` prints one line for each task and
    /// leaves the store alone.
    pub fn run(&self, store: &mut TaskStore) -> (outcome: Outcome)
        ensures
            final(store)@ == self.store_after(old(store)@),
            line_texts(outcome.output@) == self.output_for(old(store)@),
            outcome.changed == (self.command_spec() matches Commands::Add { description }
                && !blank(description@)),
    {
        match &self.command {
            Commands::Add { description } => {
                let mut output: Vec<String> = Vec::new();
                match handle_add(store, description.as_str()) {
                    Some(message) => {
                        output.push(message.to_owned());
                        assert(line_texts(output@) =~= seq![ADDED@]);
                        Outcome { output, changed: true }
                    },
                    None => {
                        assert(line_texts(output@) =~= Seq::<Seq<char>>::empty());
                        Outcome { output, changed: false }
                    },
                }
            },
            Commands::List => Outcome { output: handle_list(store), changed: false },
        }
    }
}

} // verus!
