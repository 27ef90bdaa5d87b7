use vstd::prelude::*;

verus! {

/// One entry of the list.
#[derive(Clone, Debug, PartialEq, Eq)]
pub struct Task {
    pub description: String,
    pub completed: bool,
    pub due_date: Option<String>,
}

impl Task {
    /// A task that is not yet completed.
    pub fn new(description: String, due_date: Option<String>) -> (r: Task)
        ensures
            r.description == description,
            r.due_date == due_date,
            !r.completed,
    {
        Task { description, completed: false, due_date }
    }
}

} // verus!
