use todolist::{decimal_string, Task, TodoList};

#[test]
fn decimal_strings() {
    assert_eq!(decimal_string(0), "0");
    assert_eq!(decimal_string(7), "7");
    assert_eq!(decimal_string(10), "10");
    assert_eq!(decimal_string(99), "99");
    assert_eq!(decimal_string(12345), "12345");
    assert_eq!(decimal_string(usize::MAX), usize::MAX.to_string());
}

#[test]
fn empty_list_shows_message() {
    assert_eq!(TodoList::new().show(), "No tasks to display.");
}

#[test]
fn rows_hold_index_description_due_and_flag() {
    let list = TodoList::from_stored(Some(vec![
        Task { description: "Pay rent".to_string(), completed: false, due_date: Some("2025-01-01".to_string()) },
        Task { description: "Call mum".to_string(), completed: true, due_date: None },
    ]));
    assert_eq!(
        list.rows(),
        vec![
            vec!["0".to_string(), "Pay rent".to_string(), "2025-01-01".to_string(), "No".to_string()],
            vec!["1".to_string(), "Call mum".to_string(), "None".to_string(), "Yes".to_string()],
        ]
    );
    assert_eq!(list.row(1), vec!["1", "Call mum", "None", "Yes"]);
}

#[test]
fn listing_is_a_table() {
    let mut list = TodoList::new();
    list.add("Pay rent".to_string(), Some("2025-01-01".to_string()));
    list.add("Call mum".to_string(), None);
    list.complete(1);
    let text = list.show();
    let lines: Vec<&str> = text.lines().collect();
    let header = lines.iter().find(|l| l.contains("Index")).unwrap();
    for title in ["Description", "Due Date", "Completed"] {
        assert!(header.contains(title));
    }
    let first = lines.iter().find(|l| l.contains("Pay rent")).unwrap();
    assert!(first.contains("| 0 "));
    assert!(first.contains("2025-01-01"));
    assert!(first.contains("No"));
    let second = lines.iter().find(|l| l.contains("Call mum")).unwrap();
    assert!(second.contains("| 1 "));
    assert!(second.contains("None"));
    assert!(second.contains("Yes"));
    assert!(text.starts_with('+'));
    assert!(text.ends_with('+'));
}
