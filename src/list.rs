use vstd::prelude::*;

use crate::task::Task;

verus! {

/// The tasks, in the order they were added; a task is addressed by its position.
pub struct TodoList {
    pub tasks: Vec<Task>,
}

impl View for TodoList {
    type V = Seq<Task>;

    open spec fn view(&self) -> Seq<Task> {
        self.tasks@
    }
}

/// Whether a task is still open.
pub open spec fn is_open(t: Task) -> bool {
    !t.completed
}

/// The open tasks of `s`, in their order.
pub open spec fn open_tasks(s: Seq<Task>) -> Seq<Task> {
    s.filter(|t: Task| is_open(t))
}

/// `s` with the task at `i` marked completed.
pub open spec fn completed_at(s: Seq<Task>, i: int) -> Seq<Task> {
    s.update(i, Task { completed: true, ..s[i] })
}

impl TodoList {
    pub fn new() -> (r: TodoList)
        ensures
            r@ == Seq::<Task>::empty(),
    {
        TodoList { tasks: Vec::new() }
    }

    /// The list read back from storage; `None` (nothing stored, or content that
    /// does not parse) gives the empty list.
    pub fn from_stored(stored: Option<Vec<Task>>) -> (r: TodoList)
        ensures
            stored matches Some(v) ==> r@ == v@,
            stored is None ==> r@ == Seq::<Task>::empty(),
    {
        match stored {
            Some(tasks) => TodoList { tasks },
            None => TodoList::new(),
        }
    }

    /// Appends a new open task at the end.
    pub fn add(&mut self, description: String, due: Option<String>)
        ensures
            final(self)@ == old(self)@.push(Task { description, completed: false, due_date: due }),
    {
        self.tasks.push(Task::new(description, due));
    }

    /// Marks the task at `index` completed; false, and nothing changed, when
    /// there is no task there.
    pub fn complete(&mut self, index: usize) -> (r: bool)
        ensures
            r == (index < old(self)@.len()),
            r ==> final(self)@ == completed_at(old(self)@, index as int),
            r ==> final(self)@.len() == old(self)@.len(),
            r ==> final(self)@[index as int].completed,
            r ==> final(self)@[index as int].description == old(self)@[index as int].description,
            r ==> final(self)@[index as int].due_date == old(self)@[index as int].due_date,
            forall|j: int| 0 <= j < old(self)@.len() && j != index ==> #[trigger] final(self)@[j] == old(self)@[j],
            !r ==> final(self)@ == old(self)@,
    {
        if index < self.tasks.len() {
            self.tasks[index].completed = true;
            true
        } else {
            false
        }
    }

    /// Removes the task at `index`, moving the later ones down by one; false,
    /// and nothing changed, when there is no task there.
    pub fn remove(&mut self, index: usize) -> (r: bool)
        ensures
            r == (index < old(self)@.len()),
            r ==> final(self)@ == old(self)@.remove(index as int),
            r ==> final(self)@.len() == old(self)@.len() - 1,
            r ==> forall|j: int| 0 <= j < index ==> #[trigger] final(self)@[j] == old(self)@[j],
            r ==> forall|j: int| index <= j < final(self)@.len() ==> #[trigger] final(self)@[j] == old(self)@[j + 1],
            !r ==> final(self)@ == old(self)@,
    {
        if index < self.tasks.len() {
            self.tasks.remove(index);
            true
        } else {
            false
        }
    }

    /// Removes every completed task and keeps the open ones in their order.
    /// It walks from the last position down, so a removal never shifts a task
    /// that is still to be looked at.
    pub fn clean(&mut self)
        ensures
            final(self)@ == open_tasks(old(self)@),
    {
        let ghost start = self.tasks@;
        let n = self.tasks.len();
        let mut i: usize = n;
        proof {
            assert(start.subrange(n as int, n as int) == Seq::<Task>::empty());
            reveal(Seq::filter);
            assert(open_tasks(Seq::<Task>::empty()) == Seq::<Task>::empty());
        }
        while i > 0
            invariant
                i <= n,
                n == start.len(),
                self.tasks@ == start.subrange(0, i as int) + open_tasks(start.subrange(i as int, n as int)),
            decreases i,
        {
            i = i - 1;
            let ghost rest = start.subrange(i + 1, n as int);
            let ghost head = seq![start[i as int]];
            proof {
                assert(start.subrange(i as int, n as int) =~= head + rest);
                Seq::filter_distributes_over_add(head, rest, |t: Task| is_open(t));
                assert(head.drop_last() =~= Seq::<Task>::empty());
                reveal_with_fuel(Seq::filter, 2);
            }
            if self.tasks[i].completed {
                self.tasks.remove(i);
                proof {
                    assert(open_tasks(head) == Seq::<Task>::empty());
                    assert(self.tasks@ =~= start.subrange(0, i as int) + open_tasks(start.subrange(i as int, n as int)));
                }
            } else {
                proof {
                    assert(open_tasks(head) == head);
                    assert(self.tasks@ =~= start.subrange(0, i as int) + open_tasks(start.subrange(i as int, n as int)));
                }
            }
        }
        proof {
            assert(start.subrange(0, n as int) =~= start);
            assert(start.subrange(0, 0) + open_tasks(start) =~= open_tasks(start));
        }
    }
}

impl Default for TodoList {
    fn default() -> (r: TodoList)
        ensures
            r@ == Seq::<Task>::empty(),
    {
        TodoList::new()
    }
}

} // verus!
