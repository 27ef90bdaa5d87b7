use vstd::prelude::*;
use vstd::string::StringExecFns;

use crate::list::{completed_at, open_tasks, TodoList};
use crate::render::listing;
use crate::task::Task;
use crate::text::{decimal, decimal_string};

verus! {

/// The file name used when neither a path nor the environment names one.
pub const DEFAULT_FILE_NAME: &'static str = ".to_do.json";

/// One request to the list.
pub enum Command {
    Add { description: String, due: Option<String> },
    List,
    Complete { index: usize },
    Remove { index: usize },
    Clean,
}

/// What a command leaves for its caller to do: whether to write the list back,
/// and a text to print.
pub struct Outcome {
    pub save: bool,
    pub output: Option<String>,
}

/// The text of an optional string.
pub open spec fn text_of(o: Option<String>) -> Option<Seq<char>> {
    match o {
        Some(s) => Some(s@),
        None => None,
    }
}

/// The message for a position that holds no task.
pub open spec fn missing_message(index: nat) -> Seq<char> {
    "No task at index "@ + decimal(index)
}

/// The list after `command`, whether it is to be saved, and what is printed.
pub open spec fn step(tasks: Seq<Task>, command: Command) -> (Seq<Task>, bool, Option<Seq<char>>) {
    match command {
        Command::Add { description, due } => (
            tasks.push(Task { description, completed: false, due_date: due }),
            true,
            None,
        ),
        Command::List => (tasks, false, Some(listing(tasks))),
        Command::Complete { index } => if index < tasks.len() {
            (completed_at(tasks, index as int), true, None)
        } else {
            (tasks, false, Some(missing_message(index as nat)))
        },
        Command::Remove { index } => if index < tasks.len() {
            (tasks.remove(index as int), true, None)
        } else {
            (tasks, false, Some(missing_message(index as nat)))
        },
        Command::Clean => (open_tasks(tasks), true, None),
    }
}

/// The message printed for a position that holds no task.
pub fn missing_task_message(index: usize) -> (r: String)
    ensures
        r@ == missing_message(index as nat),
{
    let mut r = String::from_str("No task at index ");
    let digits = decimal_string(index);
    r.append(digits.as_str());
    r
}

/// Carries out `command` on `list`. A change is always to be saved; a
/// position without a task changes nothing and yields a message.
pub fn execute(list: &mut TodoList, command: Command) -> (r: Outcome)
    ensures
        (final(list)@, r.save, text_of(r.output)) == step(old(list)@, command),
{
    match command {
        Command::Add { description, due } => {
            list.add(description, due);
            Outcome { save: true, output: None }
        },
        Command::List => Outcome { save: false, output: Some(list.show()) },
        Command::Complete { index } => {
            if list.complete(index) {
                Outcome { save: true, output: None }
            } else {
                Outcome { save: false, output: Some(missing_task_message(index)) }
            }
        },
        Command::Remove { index } => {
            if list.remove(index) {
                Outcome { save: true, output: None }
            } else {
                Outcome { save: false, output: Some(missing_task_message(index)) }
            }
        },
        Command::Clean => {
            list.clean();
            Outcome { save: true, output: None }
        },
    }
}

/// The tasks file: the explicit path if given, else the one from the
/// environment, else the file in the home directory, else the default name in
/// the current directory.
pub fn tasks_file(flag: Option<String>, env: Option<String>, home_file: Option<String>) -> (r: String)
    ensures
        r@ == match (flag, env, home_file) {
            (Some(f), _, _) => f@,
            (None, Some(e), _) => e@,
            (None, None, Some(h)) => h@,
            (None, None, None) => DEFAULT_FILE_NAME@,
        },
{
    match (flag, env, home_file) {
        (Some(f), _, _) => f,
        (None, Some(e), _) => e,
        (None, None, Some(h)) => h,
        (None, None, None) => String::from_str(DEFAULT_FILE_NAME),
    }
}

} // verus!
