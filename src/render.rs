use vstd::prelude::*;
use vstd::string::StringExecFns;

use crate::list::TodoList;
use crate::table::{add_table_row, cell_texts, drawn_table, new_table, set_table_header, table_text};
use crate::task::Task;
use crate::text::{decimal, decimal_string};

verus! {

/// What is shown when there are no tasks.
pub open spec fn empty_message() -> Seq<char> {
    "No tasks to display."@
}

/// The column titles.
pub open spec fn header_texts() -> Seq<Seq<char>> {
    seq!["Index"@, "Description"@, "Due Date"@, "Completed"@]
}

/// The due date as shown: its text, or "None" when there is none.
pub open spec fn due_text(due: Option<String>) -> Seq<char> {
    match due {
        Some(d) => d@,
        None => "None"@,
    }
}

/// The completion flag as shown.
pub open spec fn completed_text(completed: bool) -> Seq<char> {
    if completed { "Yes"@ } else { "No"@ }
}

/// The cells of the row for task `t` at position `i`.
pub open spec fn row_texts(i: nat, t: Task) -> Seq<Seq<char>> {
    seq![decimal(i), t.description@, due_text(t.due_date), completed_text(t.completed)]
}

/// The rows for all tasks, by position.
pub open spec fn task_rows(tasks: Seq<Task>) -> Seq<Seq<Seq<char>>> {
    Seq::new(tasks.len(), |i: int| row_texts(i as nat, tasks[i]))
}

/// The listing of `tasks`: the fixed message when there are none, else the table.
pub open spec fn listing(tasks: Seq<Task>) -> Seq<char> {
    if tasks.len() == 0 {
        empty_message()
    } else {
        drawn_table(header_texts(), task_rows(tasks))
    }
}

fn header_cells() -> (r: Vec<String>)
    ensures
        r@.len() == 4,
        cell_texts(r@) == header_texts(),
{
    let r = vec![
        String::from_str("Index"),
        String::from_str("Description"),
        String::from_str("Due Date"),
        String::from_str("Completed"),
    ];
    assert(cell_texts(r@) =~= header_texts());
    r
}

impl TodoList {
    /// The cells of the row for the task at `i`.
    pub fn row(&self, i: usize) -> (r: Vec<String>)
        requires
            i < self@.len(),
        ensures
            cell_texts(r@) == row_texts(i as nat, self@[i as int]),
    {
        let task = &self.tasks[i];
        let due = match &task.due_date {
            Some(d) => d.clone(),
            None => String::from_str("None"),
        };
        let completed = if task.completed {
            String::from_str("Yes")
        } else {
            String::from_str("No")
        };
        let r = vec![decimal_string(i), task.description.clone(), due, completed];
        assert(cell_texts(r@) =~= row_texts(i as nat, self@[i as int]));
        r
    }

    /// The rows of the listing, one per task, by position.
    pub fn rows(&self) -> (r: Vec<Vec<String>>)
        ensures
            r@.len() == self@.len(),
            forall|i: int| 0 <= i < r@.len() ==> cell_texts(#[trigger] r@[i]@) == task_rows(self@)[i],
    {
        let mut r: Vec<Vec<String>> = Vec::new();
        let n = self.tasks.len();
        let mut i: usize = 0;
        while i < n
            invariant
                i <= n,
                n == self@.len(),
                r@.len() == i,
                forall|k: int| 0 <= k < i ==> cell_texts(#[trigger] r@[k]@) == task_rows(self@)[k],
            decreases n - i,
        {
            let cells = self.row(i);
            r.push(cells);
            i = i + 1;
        }
        r
    }

    /// The text that lists the tasks: a table with one row per task, or a
    /// fixed message when there are none.
    pub fn show(&self) -> (r: String)
        ensures
            r@ == listing(self@),
    {
        if self.tasks.len() == 0 {
            return String::from_str("No tasks to display.");
        }
        let mut table = new_table();
        set_table_header(&mut table, header_cells());
        let n = self.tasks.len();
        let mut i: usize = 0;
        while i < n
            invariant
                i <= n,
                n == self@.len(),
                crate::table::table_header(table) == header_texts(),
                crate::table::table_rows(table) =~= task_rows(self@).take(i as int),
            decreases n - i,
        {
            add_table_row(&mut table, self.row(i));
            i = i + 1;
        }
        assert(task_rows(self@).take(n as int) =~= task_rows(self@));
        table_text(&table)
    }
}

} // verus!
