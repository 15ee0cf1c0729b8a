//! What the subcommands of the command line do to a store, and what they
//! print.

pub mod add;
pub mod list;
