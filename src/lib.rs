//! A personal assistant for the terminal: a todo list, dated reminders,
//! an interactive list picker and the dispatch of commands to plugins.

pub mod registry;
pub mod remind;
pub mod selection;
pub mod text;
pub mod todo;
