use todoist_tui::control::{handle_intent, Action, App, CurrentFocus, Intent, MutationKind, TaskResult};
use todoist_tui::display::Filter;
use todoist_tui::new_task::{CurrentlyEditing, NewTask};
use todoist_tui::projects::Projects;
use todoist_tui::task::{Date, ListType, Project, Task};

fn sync_task(id: &str, project: &str) -> Task {
    Task {
        id: id.to_string(),
        project_id: project.to_string(),
        section_id: None,
        content: id.to_string(),
        description: String::new(),
        is_completed: false,
        labels: Vec::new(),
        parent_id: None,
        order: 0,
        priority: 1,
        due: None,
        url: String::new(),
        comment_count: 0,
        created_at: String::new(),
        creator_id: String::new(),
        assignee_id: None,
        assigner_id: None,
        duration: None,
    }
}

fn sync_project(id: &str) -> Project {
    Project {
        id: id.to_string(),
        name: format!("project {}", id),
        comment_count: 0,
        order: 0,
        color: "red".to_string(),
        is_shared: false,
        is_favorite: false,
        is_inbox_project: false,
        is_team_inbox: false,
        view_style: ListType::List,
        url: String::new(),
        parent_id: None,
    }
}

const DAY: Date = Date { year: 2024, month: 6, day: 10 };

fn committed_draft(app: &mut App) -> NewTask {
    app.show_new_task = true;
    app.new_task = NewTask::new("p".to_string(), None);
    app.new_task.set_focused_text("buy milk".to_string());
    match handle_intent(app, Intent::Confirm) {
        Action::Create(d) => d,
        other => panic!("expected a create, got {:?}", other),
    }
}

#[test]
fn failed_create_adds_nothing_and_reports() {
    let mut app = App::new();
    app.tasks.append(sync_task("a", "p"));
    let draft = committed_draft(&mut app);
    assert_eq!(draft.content, "buy milk");
    app.apply_result(MutationKind::Create, TaskResult::Error("network error".to_string()), &DAY);
    assert_eq!(app.tasks.tasks.len(), 1);
    assert_eq!(app.error_message.as_deref(), Some("network error"));
    app.dismiss_error();
    assert_eq!(app.error_message, None);
}

#[test]
fn completed_create_appears_once_in_display() {
    let mut app = App::new();
    app.tasks.filter = Filter::ProjectId("p".to_string());
    app.tasks.append(sync_task("a", "p"));
    committed_draft(&mut app);
    app.apply_result(MutationKind::Create, TaskResult::Task(sync_task("new", "p")), &DAY);
    assert_eq!(app.tasks.tasks.len(), 2);
    let hits = app.tasks.display_tasks.iter().filter(|&&i| app.tasks.tasks[i].id == "new").count();
    assert_eq!(hits, 1);
    assert_eq!(app.tasks.display_tasks, vec![0, 1]);
}

#[test]
fn confirmed_update_changes_nothing() {
    let mut app = App::new();
    app.tasks.append(sync_task("a", "p"));
    app.apply_result(MutationKind::Update, TaskResult::Task(sync_task("a", "p")), &DAY);
    assert_eq!(app.tasks.tasks.len(), 1);
    assert_eq!(app.error_message, None);
}

#[test]
fn reconcile_appends_created_task() {
    let mut app = App::new();
    app.tasks.filter = Filter::All;
    app.reconcile(MutationKind::Create, TaskResult::Task(sync_task("z", "p")));
    assert_eq!(app.tasks.tasks.len(), 1);
    assert_eq!(app.tasks.display_tasks, vec![0]);
}

#[test]
fn cancel_dismisses_error_first() {
    let mut app = App::new();
    app.error_message = Some("boom".to_string());
    handle_intent(&mut app, Intent::Cancel);
    assert_eq!(app.error_message, None);
}

#[test]
fn draft_fields_cycle_and_cancel() {
    let mut app = App::new();
    app.show_new_task = true;
    app.new_task = NewTask::new("p".to_string(), Some("parent".to_string()));
    handle_intent(&mut app, Intent::NextField);
    assert_eq!(app.new_task.currently_editing, CurrentlyEditing::Description);
    handle_intent(&mut app, Intent::NextField);
    handle_intent(&mut app, Intent::NextField);
    assert_eq!(app.new_task.currently_editing, CurrentlyEditing::Content);
    handle_intent(&mut app, Intent::Cancel);
    assert!(!app.show_new_task);
}

#[test]
fn moving_in_projects_filters_by_project() {
    let mut app = App::new();
    app.projects = Projects::new(vec![sync_project("p"), sync_project("q")]);
    app.tasks.append(sync_task("a", "p"));
    app.tasks.append(sync_task("b", "q"));
    app.tasks.append(sync_task("c", "q"));
    handle_intent(&mut app, Intent::SelectPrevious);
    assert_eq!(app.projects.state.selected, Some(0));
    assert_eq!(app.projects.selected_project.as_deref(), Some("p"));
    assert_eq!(app.tasks.display_tasks, vec![0]);
    handle_intent(&mut app, Intent::SelectNext);
    assert_eq!(app.projects.selected_project.as_deref(), Some("q"));
    assert_eq!(app.tasks.display_tasks, vec![1, 2]);
    handle_intent(&mut app, Intent::AddTask);
    assert!(app.show_new_task);
    assert_eq!(app.new_task.project_id.as_deref(), Some("q"));
    assert_eq!(app.new_task.parent_id, None);
}

#[test]
fn global_intents_toggle_help_switch_focus_and_quit() {
    let mut app = App::new();
    handle_intent(&mut app, Intent::SwitchFocus);
    assert_eq!(app.current_focus, CurrentFocus::Tasks);
    handle_intent(&mut app, Intent::SwitchFocus);
    assert_eq!(app.current_focus, CurrentFocus::Projects);
    handle_intent(&mut app, Intent::ToggleHelp);
    assert!(app.show_help);
    handle_intent(&mut app, Intent::SwitchFocus);
    assert_eq!(app.current_focus, CurrentFocus::Projects);
    assert!(matches!(handle_intent(&mut app, Intent::Quit), Action::Quit));
    assert!(app.exit);
}

#[test]
fn today_filter_intent_unselects_project() {
    let mut app = App::new();
    app.projects = Projects::new(vec![sync_project("p")]);
    handle_intent(&mut app, Intent::SelectNext);
    assert_eq!(app.projects.state.selected, Some(0));
    handle_intent(&mut app, Intent::FilterOverdue);
    assert!(matches!(app.tasks.filter, Filter::Overdue));
    handle_intent(&mut app, Intent::FilterToday);
    assert!(matches!(app.tasks.filter, Filter::Today));
    assert_eq!(app.projects.state.selected, None);
}
