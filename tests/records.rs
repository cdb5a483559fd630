use todoist_tui::task::{month_abbrev, priority_label, Date, Due, Section, Sections};

#[test]
fn priority_labels_run_backwards() {
    assert_eq!(priority_label(1), "P4");
    assert_eq!(priority_label(2), "P3");
    assert_eq!(priority_label(3), "P2");
    assert_eq!(priority_label(4), "P1");
    assert_eq!(priority_label(0), "");
    assert_eq!(priority_label(9), "");
}

#[test]
fn month_names() {
    assert_eq!(month_abbrev(1), "Jan");
    assert_eq!(month_abbrev(6), "Jun");
    assert_eq!(month_abbrev(12), "Dec");
    assert_eq!(month_abbrev(13), "");
}

#[test]
fn due_reads_year_month_day() {
    let d = Due::new("tomorrow".to_string(), "2024-06-01", false, None, None).unwrap();
    assert_eq!(d.date, Date { year: 2024, month: 6, day: 1 });
    assert_eq!(d.string, "tomorrow");
}

#[test]
fn due_rejects_text_that_names_no_date() {
    assert!(Due::new(String::new(), "2024-02-30", false, None, None).is_none());
    assert!(Due::new(String::new(), "soon", false, None, None).is_none());
}

#[test]
fn sections_hold_their_items() {
    let s = Sections::new(vec![Section {
        id: "s".to_string(),
        project_id: "p".to_string(),
        order: 1,
        name: "Backlog".to_string(),
    }]);
    assert_eq!(s.sections.len(), 1);
    assert_eq!(s.sections[0].name, "Backlog");
}
