use chrono::Datelike;
use todoist_tui::display::{compute_display, is_shown, Filter};
use todoist_tui::store::Tasks;
use todoist_tui::task::{Date, Due, Task};

fn view_task(id: &str, parent: Option<&str>, project: &str, due: Option<(i32, u32, u32)>, priority: u8) -> Task {
    Task {
        id: id.to_string(),
        project_id: project.to_string(),
        section_id: None,
        content: id.to_string(),
        description: String::new(),
        is_completed: false,
        labels: Vec::new(),
        parent_id: parent.map(|p| p.to_string()),
        order: 0,
        priority,
        due: due.map(|(y, m, d)| Due {
            string: String::new(),
            date: Date { year: y, month: m, day: d },
            is_recurring: false,
            datetime: None,
            timezone: None,
        }),
        url: String::new(),
        comment_count: 0,
        created_at: String::new(),
        creator_id: String::new(),
        assignee_id: None,
        assigner_id: None,
        duration: None,
    }
}

const TODAY: Date = Date { year: 2024, month: 6, day: 10 };

#[test]
fn today_filter_hides_subtask_due_today() {
    let tasks = vec![
        view_task("A", None, "p", Some((2024, 6, 10)), 1),
        view_task("B", Some("A"), "p", Some((2024, 6, 10)), 1),
    ];
    let shown = compute_display(&tasks, &Filter::Today, &TODAY, false);
    let ids: Vec<&str> = shown.iter().map(|&i| tasks[i].id.as_str()).collect();
    assert_eq!(ids, vec!["A"]);
}

#[test]
fn overdue_filter_takes_only_earlier_dates() {
    let tasks = vec![
        view_task("early", None, "p", Some((2024, 6, 1)), 1),
        view_task("same", None, "p", Some((2024, 6, 10)), 1),
        view_task("late", None, "p", Some((2024, 6, 11)), 1),
    ];
    let shown = compute_display(&tasks, &Filter::Overdue, &TODAY, false);
    assert_eq!(shown, vec![0]);
}

#[test]
fn overdue_compares_year_then_month_then_day() {
    let tasks = vec![
        view_task("a", None, "p", Some((2023, 12, 31)), 1),
        view_task("b", None, "p", Some((2024, 5, 30)), 1),
        view_task("c", None, "p", Some((2024, 7, 1)), 1),
        view_task("d", None, "p", Some((2025, 1, 1)), 1),
        view_task("e", None, "p", None, 1),
    ];
    assert_eq!(compute_display(&tasks, &Filter::Overdue, &TODAY, false), vec![0, 1]);
    assert!(Date { year: 2024, month: 6, day: 9 }.is_before(&TODAY));
    assert!(!TODAY.is_before(&TODAY));
}

#[test]
fn all_filter_keeps_top_level_in_store_order() {
    let tasks = vec![
        view_task("a", None, "p", None, 1),
        view_task("b", Some("a"), "p", None, 1),
        view_task("c", None, "q", None, 1),
    ];
    assert_eq!(compute_display(&tasks, &Filter::All, &TODAY, false), vec![0, 2]);
}

#[test]
fn project_filter_matches_exact_id() {
    let tasks = vec![
        view_task("a", None, "p", None, 1),
        view_task("b", None, "pp", None, 1),
        view_task("c", None, "p", None, 1),
        view_task("d", Some("a"), "p", None, 1),
    ];
    let f = Filter::ProjectId("p".to_string());
    assert_eq!(compute_display(&tasks, &f, &TODAY, false), vec![0, 2]);
    assert!(!is_shown(&tasks[3], &f, &TODAY));
}

#[test]
fn no_subtask_appears_under_any_filter() {
    let tasks = vec![
        view_task("a", None, "p", Some((2024, 6, 10)), 1),
        view_task("b", Some("a"), "p", Some((2024, 6, 1)), 2),
        view_task("c", Some("a"), "p", Some((2024, 6, 10)), 3),
        view_task("d", None, "p", Some((2024, 6, 2)), 4),
    ];
    for f in [Filter::All, Filter::Today, Filter::Overdue, Filter::ProjectId("p".to_string())] {
        for by_priority in [false, true] {
            for i in compute_display(&tasks, &f, &TODAY, by_priority) {
                assert!(tasks[i].parent_id.is_none());
            }
        }
    }
}

#[test]
fn priority_sort_is_descending_and_stable() {
    let tasks = vec![
        view_task("a", None, "p", None, 1),
        view_task("b", None, "p", None, 4),
        view_task("c", None, "p", None, 2),
        view_task("d", None, "p", None, 4),
        view_task("e", Some("a"), "p", None, 4),
        view_task("f", None, "p", None, 1),
    ];
    assert_eq!(compute_display(&tasks, &Filter::All, &TODAY, true), vec![1, 3, 2, 0, 5]);
}

#[test]
fn empty_store_gives_empty_display() {
    let tasks: Vec<Task> = Vec::new();
    assert!(compute_display(&tasks, &Filter::All, &TODAY, true).is_empty());
}

#[test]
fn store_refresh_and_sort() {
    let mut s = Tasks::new(vec![
        view_task("a", None, "p", Some((2024, 6, 10)), 1),
        view_task("b", None, "p", Some((2024, 6, 10)), 3),
        view_task("c", None, "p", Some((2024, 6, 9)), 4),
    ]);
    s.refresh_display(&TODAY);
    assert_eq!(s.display_tasks, vec![0, 1]);
    s.sort_tasks();
    assert_eq!(s.display_tasks, vec![1, 0]);
    s.next();
    assert_eq!(s.selected_index(), Some(1));
    s.next();
    s.next();
    assert_eq!(s.selected_index(), Some(1));
    s.previous();
    assert_eq!(s.selected_index(), Some(0));
    s.unselect();
    assert_eq!(s.selected_index(), None);
}

#[test]
fn filter_task_list_with_all_filter_ignores_the_clock() {
    let mut s = Tasks::new(vec![view_task("a", None, "p", None, 1), view_task("b", Some("a"), "p", None, 1)]);
    s.filter = Filter::All;
    s.filter_task_list();
    assert_eq!(s.display_tasks, vec![0]);
}

#[test]
fn filter_task_list_reads_the_local_date() {
    let now = chrono::Local::now().date_naive();
    let today = (now.year(), now.month(), now.day());
    let yesterday = now.pred_opt().unwrap();
    let mut s = Tasks::new(vec![
        view_task("due", None, "p", Some(today), 1),
        view_task("past", None, "p", Some((yesterday.year(), yesterday.month(), yesterday.day())), 1),
    ]);
    s.filter_task_list();
    assert_eq!(s.display_tasks, vec![0]);
    s.filter = Filter::Overdue;
    s.filter_task_list();
    assert_eq!(s.display_tasks, vec![1]);
}

#[test]
fn sort_tasks_keeps_list_order_among_equal_priorities() {
    let mut s = Tasks::new(vec![
        view_task("a", None, "p", None, 2),
        view_task("b", None, "p", None, 2),
        view_task("c", None, "p", None, 3),
    ]);
    s.display_tasks = vec![1, 0];
    s.sort_tasks();
    assert_eq!(s.display_tasks, vec![1, 0]);
    s.display_tasks = vec![1, 0, 2];
    s.sort_tasks();
    assert_eq!(s.display_tasks, vec![2, 1, 0]);
}
