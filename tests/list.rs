use todolist::{Task, TodoList};

fn task(description: &str, completed: bool, due: Option<&str>) -> Task {
    Task {
        description: description.to_string(),
        completed,
        due_date: due.map(|d| d.to_string()),
    }
}

fn descriptions(list: &TodoList) -> Vec<String> {
    list.tasks.iter().map(|t| t.description.clone()).collect()
}

#[test]
fn test_add_task() {
    let mut todo_list = TodoList::new();
    let description = "Test task".to_string();
    let due_date = Some("2025-12-31".to_string());
    todo_list.add(description.clone(), due_date.clone());
    assert_eq!(todo_list.tasks.len(), 1);
    assert_eq!(todo_list.tasks[0].description, description);
    assert_eq!(todo_list.tasks[0].due_date, due_date);
    assert!(!todo_list.tasks[0].completed);
}

#[test]
fn lib_test_complete_task() {
    let mut todo_list = TodoList::new();
    todo_list.add("Test task".to_string(), None);
    todo_list.complete(0);
    assert!(todo_list.tasks[0].completed);
}

#[test]
fn lib_test_remove_task() {
    let mut todo_list = TodoList::new();
    todo_list.add("Test task".to_string(), None);
    todo_list.remove(0);
    assert!(todo_list.tasks.is_empty());
}

#[test]
fn new_task_is_open() {
    let t = Task::new("Read".to_string(), None);
    assert_eq!(t, task("Read", false, None));
}

#[test]
fn add_appends_at_the_end() {
    let mut list = TodoList::new();
    list.add("first".to_string(), None);
    list.add("second".to_string(), Some("".to_string()));
    assert_eq!(list.tasks.len(), 2);
    assert_eq!(list.tasks[0], task("first", false, None));
    assert_eq!(list.tasks[1], task("second", false, Some("")));
}

#[test]
fn complete_marks_only_that_task() {
    let mut list = TodoList::new();
    list.add("a".to_string(), None);
    list.add("b".to_string(), Some("tomorrow".to_string()));
    list.add("c".to_string(), None);
    assert!(list.complete(1));
    assert_eq!(list.tasks, vec![task("a", false, None), task("b", true, Some("tomorrow")), task("c", false, None)]);
    assert!(list.complete(1));
    assert_eq!(list.tasks[1], task("b", true, Some("tomorrow")));
}

#[test]
fn complete_out_of_range_changes_nothing() {
    let mut list = TodoList::new();
    assert!(!list.complete(0));
    list.add("a".to_string(), None);
    assert!(!list.complete(1));
    assert!(!list.complete(usize::MAX));
    assert_eq!(list.tasks, vec![task("a", false, None)]);
}

#[test]
fn remove_shifts_later_tasks_down() {
    let mut list = TodoList::new();
    for d in ["a", "b", "c", "d"] {
        list.add(d.to_string(), None);
    }
    assert!(list.remove(1));
    assert_eq!(descriptions(&list), vec!["a", "c", "d"]);
    assert!(list.remove(2));
    assert_eq!(descriptions(&list), vec!["a", "c"]);
}

#[test]
fn remove_out_of_range_changes_nothing() {
    let mut list = TodoList::new();
    list.add("a".to_string(), None);
    assert!(!list.remove(1));
    assert_eq!(descriptions(&list), vec!["a"]);
}

#[test]
fn clean_keeps_open_tasks_in_order() {
    let mut list = TodoList::from_stored(Some(vec![
        task("a", true, None),
        task("b", false, None),
        task("c", true, Some("x")),
        task("d", true, None),
        task("e", false, Some("y")),
        task("f", true, None),
    ]));
    list.clean();
    assert_eq!(list.tasks, vec![task("b", false, None), task("e", false, Some("y"))]);
}

#[test]
fn clean_on_all_completed_and_on_none_completed() {
    let mut done = TodoList::from_stored(Some(vec![task("a", true, None), task("b", true, None)]));
    done.clean();
    assert!(done.tasks.is_empty());
    let open = vec![task("a", false, None), task("b", false, None)];
    let mut list = TodoList::from_stored(Some(open.clone()));
    list.clean();
    assert_eq!(list.tasks, open);
    let mut empty = TodoList::new();
    empty.clean();
    assert!(empty.tasks.is_empty());
}

#[test]
fn stored_tasks_are_taken_as_they_are() {
    let stored = vec![task("a", true, Some("d")), task("b", false, None)];
    assert_eq!(TodoList::from_stored(Some(stored.clone())).tasks, stored);
    assert!(TodoList::from_stored(None).tasks.is_empty());
    assert!(TodoList::default().tasks.is_empty());
}
