//! A personal task list: tasks, the ordered store that holds them, the
//! preferences record, and the derived data a front end shows for them.
//!
//! Every function here is verified against its contract. Reading and writing
//! files, and drawing, belong to the program around this library.

pub mod cli;
pub mod commands;
pub mod dates;
pub mod display;
pub mod session;
pub mod settings;
pub mod shell;
pub mod storage;
pub mod tasks;
pub mod text;
