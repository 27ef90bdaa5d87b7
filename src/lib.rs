//! A small to-do list: tasks with an optional due date and a completion flag,
//! kept in insertion order and addressed by position.

mod command;
mod list;
mod render;
mod table;
mod task;
mod text;

pub use command::{execute, missing_task_message, tasks_file, Command, Outcome, DEFAULT_FILE_NAME};
pub use list::TodoList;
pub use task::Task;
pub use text::decimal_string;
