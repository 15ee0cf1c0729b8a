//! The `add` subcommand.

use crate::shell::{add_task, added_task};
use crate::storage::TaskStore;
use crate::text::blank;
use vstd::prelude::*;

verus! {

/// The confirmation that `add` prints.
pub const ADDED: &'static str = "✅ Задача добавлена!";

/// Adds a task with the given description, without deadline and in the
/// first category. Returns the confirmation to print, or `None` where the
/// description was blank and nothing was added.
pub fn handle_add(store: &mut TaskStore, description: &str) -> (message: Option<&'static str>)
    ensures
        match message {
            Some(text) => {
                &&& !blank(description@)
                &&& text@ == ADDED@
                &&& final(store)@ == old(store)@.push(added_task(description@, None, None))
            },
            None => blank(description@) && final(store)@ == old(store)@,
        },
{
    if add_task(store, description, None, None) {
        Some(ADDED)
    } else {
        None
    }
}

} // verus!
