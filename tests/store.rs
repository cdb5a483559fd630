use todoist_tui::error::TaskError;
use todoist_tui::store::Tasks;
use todoist_tui::task::{Date, Due, Task};

fn store_task(id: &str, parent: Option<&str>) -> Task {
    Task {
        id: id.to_string(),
        project_id: "p1".to_string(),
        section_id: None,
        content: format!("task {}", id),
        description: String::new(),
        is_completed: false,
        labels: Vec::new(),
        parent_id: parent.map(|p| p.to_string()),
        order: 0,
        priority: 1,
        due: Some(Due {
            string: "today".to_string(),
            date: Date { year: 2024, month: 6, day: 10 },
            is_recurring: false,
            datetime: None,
            timezone: None,
        }),
        url: String::new(),
        comment_count: 0,
        created_at: String::new(),
        creator_id: String::new(),
        assignee_id: None,
        assigner_id: None,
        duration: None,
    }
}

fn store_count_by_scan(store: &Tasks, id: &str) -> usize {
    store.tasks.iter().filter(|t| t.parent_id.as_deref() == Some(id)).count()
}

#[test]
fn new_store_counts_children() {
    let s = Tasks::new(vec![
        store_task("a", None),
        store_task("b", Some("a")),
        store_task("c", Some("a")),
        store_task("d", Some("b")),
    ]);
    assert_eq!(s.children_of(&"a".to_string()), 2);
    assert_eq!(s.children_of(&"b".to_string()), 1);
    assert_eq!(s.children_of(&"c".to_string()), 0);
    assert_eq!(s.children_of(&"zzz".to_string()), 0);
}

#[test]
fn child_counts_follow_appends_and_removes() {
    let mut s = Tasks::new(vec![store_task("a", None)]);
    s.append(store_task("b", Some("a")));
    s.append(store_task("c", Some("a")));
    s.append(store_task("d", Some("c")));
    assert!(s.remove(&"b".to_string()).is_ok());
    s.append(store_task("e", Some("d")));
    assert!(s.remove(&"d".to_string()).is_ok());
    for id in ["a", "b", "c", "d", "e"] {
        assert_eq!(s.children_of(&id.to_string()), store_count_by_scan(&s, id));
    }
    assert_eq!(s.children_of(&"a".to_string()), 1);
    assert_eq!(s.children_of(&"c".to_string()), 0);
    assert_eq!(s.children_of(&"d".to_string()), 1);
}

#[test]
fn remove_unknown_id_is_not_found() {
    let mut s = Tasks::new(vec![store_task("a", None)]);
    assert!(matches!(s.remove(&"x".to_string()), Err(TaskError::NotFound)));
    assert_eq!(s.tasks.len(), 1);
}

#[test]
fn remove_returns_the_task_and_keeps_order() {
    let mut s = Tasks::new(vec![store_task("a", None), store_task("b", None), store_task("c", None)]);
    let t = s.remove(&"b".to_string()).unwrap();
    assert_eq!(t.id, "b");
    let ids: Vec<&str> = s.tasks.iter().map(|t| t.id.as_str()).collect();
    assert_eq!(ids, vec!["a", "c"]);
    assert!(s.display_tasks.is_empty());
    assert_eq!(s.state.selected, None);
}

#[test]
fn update_fields_changes_editable_fields() {
    let mut s = Tasks::new(vec![store_task("a", None), store_task("b", Some("a"))]);
    s.update_fields(&"b".to_string(), "new title".to_string(), "details".to_string(), "tomorrow".to_string())
        .unwrap();
    let b = &s.tasks[1];
    assert_eq!(b.content, "new title");
    assert_eq!(b.description, "details");
    assert_eq!(b.due.as_ref().unwrap().string, "tomorrow");
    assert_eq!(b.parent_id.as_deref(), Some("a"));
    assert_eq!(s.tasks[0].content, "task a");
    assert_eq!(s.children_of(&"a".to_string()), 1);
}

#[test]
fn update_fields_without_due_keeps_no_due() {
    let mut t = store_task("a", None);
    t.due = None;
    let mut s = Tasks::new(vec![t]);
    s.update_fields(&"a".to_string(), "x".to_string(), "y".to_string(), "monday".to_string()).unwrap();
    assert!(s.tasks[0].due.is_none());
    assert_eq!(s.tasks[0].content, "x");
}

#[test]
fn update_fields_unknown_id_is_not_found() {
    let mut s = Tasks::new(vec![store_task("a", None)]);
    let r = s.update_fields(&"q".to_string(), "x".to_string(), "y".to_string(), "z".to_string());
    assert!(matches!(r, Err(TaskError::NotFound)));
    assert_eq!(s.tasks[0].content, "task a");
}

#[test]
fn load_replaces_tasks_and_rebuilds_index() {
    let mut s = Tasks::new(vec![store_task("a", None), store_task("b", Some("a"))]);
    s.load(vec![store_task("x", None), store_task("y", Some("x")), store_task("z", Some("x"))]);
    assert_eq!(s.tasks.len(), 3);
    assert_eq!(s.children_of(&"a".to_string()), 0);
    assert_eq!(s.children_of(&"x".to_string()), 2);
}

#[test]
fn find_tasks_with_children_is_idempotent() {
    let mut s = Tasks::new(vec![store_task("a", None), store_task("b", Some("a"))]);
    s.find_tasks_with_children();
    s.find_tasks_with_children();
    assert_eq!(s.children_of(&"a".to_string()), 1);
}

#[test]
fn selection_on_empty_display_stays_empty() {
    let mut s = Tasks::new(Vec::new());
    s.next();
    assert_eq!(s.state.selected, None);
    s.previous();
    assert_eq!(s.state.selected, None);
    assert_eq!(s.selected_index(), None);
}
