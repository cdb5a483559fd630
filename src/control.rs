//! The application state and its transitions: what each intent of the user
//! does, and how the results of remote mutations are merged back.
use vstd::prelude::*;
use crate::cursor::{ListCursor, next_spec, previous_spec};
use crate::display::{Filter, display_spec};
use crate::new_task::{NewTask, next_draft_field};
use crate::projects::Projects;
use crate::store::Tasks;
use crate::task::{Date, Sections, Task, local_today};
use crate::task_edit::{CurrentlyEditing, TaskEdit, UpdateRequest, next_edit_field};

verus! {

/// The screen on display.
#[derive(Clone, Copy, Debug, PartialEq, Eq, Structural)]
pub enum CurrentScreen {
    Main,
}

/// The pane that receives list intents.
#[derive(Clone, Copy, Debug, PartialEq, Eq, Structural)]
pub enum CurrentFocus {
    Projects,
    Tasks,
    Help,
}

/// A high-level intent of the user, as the input dispatcher reports it.
#[derive(Clone, Copy, Debug, PartialEq, Eq, Structural)]
pub enum Intent {
    SelectNext,
    SelectPrevious,
    /// Open the selection, commit an edit, or open the selected sub-task.
    Confirm,
    /// Leave an edit session or a draft, or dismiss an error.
    Cancel,
    NextField,
    CloseTask,
    DeleteTask,
    /// Draft a new task: in the selected project, or below the task in edit.
    AddTask,
    ToggleHelp,
    Quit,
    FilterToday,
    FilterOverdue,
    SwitchFocus,
}

/// Work that the surrounding loop hands to the remote service.
#[derive(Debug)]
pub enum Action {
    Nothing,
    Update(UpdateRequest),
    Create(NewTask),
    Close(String),
    Delete(String),
    Quit,
}

/// Which kind of mutation a result answers.
#[derive(Clone, Copy, Debug, PartialEq, Eq, Structural)]
pub enum MutationKind {
    Create,
    Update,
}

/// The outcome of a remote mutation.
#[derive(Debug)]
pub enum TaskResult {
    /// The task as the remote service confirmed it.
    Task(Task),
    /// A diagnostic for the user.
    Error(String),
}

/// Everything the interactive loop holds.
#[derive(Debug)]
pub struct App {
    pub current_screen: CurrentScreen,
    pub exit: bool,
    pub projects: Projects,
    pub current_focus: CurrentFocus,
    pub tasks: Tasks,
    pub show_help: bool,
    pub sections: Sections,
    pub show_task_editor: bool,
    pub task_edit: TaskEdit,
    pub show_new_task: bool,
    pub new_task: NewTask,
    /// A failure to show until the user dismisses it.
    pub error_message: Option<String>,
}

/// `new` is `old` with its display list recomputed under `filter` for some
/// local date, nothing selected and the view at the top; the tasks and the
/// child-count index are as they were.
pub open spec fn refreshed(old: Tasks, new: Tasks, filter: Filter) -> bool {
    &&& new.tasks == old.tasks
    &&& new.tasks_with_children == old.tasks_with_children
    &&& new.filter == filter
    &&& new.state == ListCursor { selected: None, offset: 0 }
    &&& exists|today: Date|
        today.in_calendar_range() && new.display_tasks@ == display_spec(old.tasks@, filter, today)
}

/// The store position of the task selected on display, if any.
pub open spec fn selected_position(t: Tasks) -> Option<usize> {
    match t.state.selected {
        Some(i) => if i < t.display_tasks@.len() {
            Some(t.display_tasks@[i as int])
        } else {
            None
        },
        None => None,
    }
}

/// The position of the selected project, if any.
pub open spec fn selected_project_position(p: Projects) -> Option<usize> {
    match p.state.selected {
        Some(i) => if i < p.projects@.len() {
            Some(i)
        } else {
            None
        },
        None => None,
    }
}

/// A draft under the selected project opens, if a project is selected;
/// nothing else changes.
pub open spec fn drafted_in_project(old: App, new: App) -> bool {
    match selected_project_position(old.projects) {
        Some(i) => new == (App { show_new_task: true, new_task: new.new_task, ..old })
            && new.new_task.is_fresh(old.projects.projects@[i as int].id@, None),
        None => new == old,
    }
}

/// After the project selection moved to `selected`: the tasks of the newly
/// selected project are on display and that project is marked as the
/// selected one; nothing else changes.
pub open spec fn followed_project(old: App, new: App, selected: Option<usize>) -> bool {
    &&& new.projects.projects == old.projects.projects
    &&& new.projects.state == (ListCursor { selected: selected, ..old.projects.state })
    &&& match selected_project_position(new.projects) {
        Some(i) => {
            let id = new.projects.projects@[i as int].id;
            &&& new == (App { projects: new.projects, tasks: new.tasks, ..old })
            &&& refreshed(old.tasks, new.tasks, Filter::ProjectId(id))
            &&& new.projects.selected_project == Some(id)
        },
        None => new == (App { projects: new.projects, ..old }) && new.projects.selected_project
            == old.projects.selected_project,
    }
}

/// What an intent does while the project list has the focus.
pub open spec fn projects_step(old: App, new: App, intent: Intent, action: Action) -> bool {
    &&& action is Nothing
    &&& match intent {
        Intent::SelectNext => followed_project(
            old,
            new,
            next_spec(old.projects.state.selected, old.projects.projects@.len()),
        ),
        Intent::SelectPrevious => followed_project(
            old,
            new,
            previous_spec(old.projects.state.selected, old.projects.projects@.len()),
        ),
        Intent::AddTask => drafted_in_project(old, new),
        _ => new == old,
    }
}

/// `old` with the selection of the task list set to `selected`.
pub open spec fn with_task_selection(old: App, selected: Option<usize>) -> App {
    App { tasks: Tasks { state: ListCursor { selected: selected, ..old.tasks.state }, ..old.tasks }, ..old }
}

/// What an intent does while the task list has the focus.
pub open spec fn tasks_step(old: App, new: App, intent: Intent, action: Action) -> bool {
    match intent {
        Intent::SelectNext => action is Nothing && new == with_task_selection(
            old,
            next_spec(old.tasks.state.selected, old.tasks.display_tasks@.len()),
        ),
        Intent::SelectPrevious => action is Nothing && new == with_task_selection(
            old,
            previous_spec(old.tasks.state.selected, old.tasks.display_tasks@.len()),
        ),
        Intent::Confirm => {
            &&& action is Nothing
            &&& match selected_position(old.tasks) {
                Some(k) => new == (App { task_edit: new.task_edit, show_task_editor: true, ..old })
                    && new.task_edit.opened_on(old.tasks.tasks@, k as int),
                None => new == old,
            }
        },
        Intent::CloseTask | Intent::DeleteTask => match selected_position(old.tasks) {
            Some(k) => {
                let id = old.tasks.tasks@[k as int].id;
                &&& new == (App { tasks: new.tasks, ..old })
                &&& new.tasks.tasks@ == old.tasks.tasks@.remove(k as int)
                &&& new.tasks.filter == old.tasks.filter
                &&& new.tasks.state == (ListCursor { selected: None, offset: 0 })
                &&& exists|today: Date|
                    today.in_calendar_range() && new.tasks.display_tasks@ == display_spec(
                        new.tasks.tasks@,
                        old.tasks.filter,
                        today,
                    )
                &&& match action {
                    Action::Close(c) => intent == Intent::CloseTask && c == id,
                    Action::Delete(d) => intent == Intent::DeleteTask && d == id,
                    _ => false,
                }
            },
            None => new == old && action is Nothing,
        },
        Intent::AddTask => action is Nothing && drafted_in_project(old, new),
        _ => new == old && action is Nothing,
    }
}

/// `old` with the edit session replaced by `s`.
pub open spec fn with_session(old: App, s: TaskEdit) -> App {
    App { task_edit: s, ..old }
}

/// What an intent does while an edit session is open.
pub open spec fn task_editor_step(old: App, new: App, intent: Intent, action: Action) -> bool {
    let s = old.task_edit;
    let k = s.current_task_index as int;
    let browsing = s.currently_editing == CurrentlyEditing::ChildTasks;
    match intent {
        Intent::Cancel => new == (App { show_task_editor: false, ..old }) && action is Nothing,
        Intent::NextField => action is Nothing && new == with_session(
            old,
            TaskEdit { currently_editing: next_edit_field(s.currently_editing), ..s },
        ),
        Intent::SelectNext => action is Nothing && if browsing {
            new == with_session(
                old,
                TaskEdit {
                    children_list_state: ListCursor {
                        selected: next_spec(s.children_list_state.selected, s.children@.len()),
                        ..s.children_list_state
                    },
                    ..s
                },
            )
        } else {
            new == old
        },
        Intent::SelectPrevious => action is Nothing && if browsing {
            new == with_session(
                old,
                TaskEdit {
                    children_list_state: ListCursor {
                        selected: previous_spec(s.children_list_state.selected, s.children@.len()),
                        ..s.children_list_state
                    },
                    ..s
                },
            )
        } else {
            new == old
        },
        Intent::Confirm => if browsing {
            &&& action is Nothing
            &&& match s.children_list_state.selected {
                Some(i) => if i < s.children@.len() {
                    if s.children@[i as int] < old.tasks.tasks@.len() {
                        new == (App { task_edit: new.task_edit, show_task_editor: true, ..old })
                            && new.task_edit.opened_on(old.tasks.tasks@, s.children@[i as int] as int)
                    } else {
                        new == (App { show_task_editor: false, ..old })
                    }
                } else {
                    new == old
                },
                None => new == old,
            }
        } else if k < old.tasks.tasks@.len() {
            &&& new == (App { tasks: new.tasks, show_task_editor: false, ..old })
            &&& new.tasks == (Tasks { tasks: new.tasks.tasks, ..old.tasks })
            &&& new.tasks.tasks@ == old.tasks.tasks@.update(
                k,
                crate::store::with_fields(old.tasks.tasks@[k], s.content, s.description, s.due_string),
            )
            &&& match action {
                Action::Update(req) => req.task_id@ == old.tasks.tasks@[k].id@ && req.content == s.content
                    && req.description == s.description && req.due_string == s.due_string,
                _ => false,
            }
        } else {
            new == (App { show_task_editor: false, ..old }) && action is Nothing
        },
        Intent::AddTask => {
            &&& action is Nothing
            &&& if k < old.tasks.tasks@.len() {
                let t = old.tasks.tasks@[k];
                &&& new == (App { show_task_editor: false, show_new_task: true, new_task: new.new_task, ..old })
                &&& new.new_task.is_fresh(t.project_id@, new.new_task.parent_id)
                &&& new.new_task.parent_id == Some(t.id)
            } else {
                new == (App { show_task_editor: false, ..old })
            }
        },
        _ => new == old && action is Nothing,
    }
}

/// What an intent does while a draft is open.
pub open spec fn new_task_step(old: App, new: App, intent: Intent, action: Action) -> bool {
    match intent {
        Intent::Cancel => new == (App { show_new_task: false, ..old }) && action is Nothing,
        Intent::Confirm => {
            &&& new == (App { show_new_task: false, new_task: new.new_task, ..old })
            &&& new.new_task.project_id is None
            &&& match action {
                Action::Create(d) => d == old.new_task,
                _ => false,
            }
        },
        Intent::NextField => action is Nothing && new == (App {
            new_task: NewTask {
                currently_editing: next_draft_field(old.new_task.currently_editing),
                ..old.new_task
            },
            ..old
        }),
        _ => new == old && action is Nothing,
    }
}

/// The pane that has the focus after switching from `f`.
pub open spec fn switched_focus(f: CurrentFocus) -> CurrentFocus {
    match f {
        CurrentFocus::Projects => CurrentFocus::Tasks,
        CurrentFocus::Tasks => CurrentFocus::Projects,
        CurrentFocus::Help => CurrentFocus::Help,
    }
}

/// `new` shows the top-level tasks that `filter` selects, with no project
/// selected; nothing else changes.
pub open spec fn switched_filter(old: App, new: App, filter: Filter) -> bool {
    &&& new == (App {
        tasks: new.tasks,
        projects: Projects { state: ListCursor { selected: None, ..old.projects.state }, ..old.projects },
        ..old
    })
    &&& refreshed(old.tasks, new.tasks, filter)
}

/// What an intent does: an open edit session or draft takes it first; then
/// an error on display is dismissed; then the global intents; then the pane
/// with the focus, unless the help is on display.
pub open spec fn intent_step(old: App, new: App, intent: Intent, action: Action) -> bool {
    if old.show_task_editor {
        task_editor_step(old, new, intent, action)
    } else if old.show_new_task {
        new_task_step(old, new, intent, action)
    } else if old.error_message is Some && intent == Intent::Cancel {
        new == (App { error_message: None, ..old }) && action is Nothing
    } else {
        match intent {
            Intent::ToggleHelp => new == (App { show_help: !old.show_help, ..old }) && action is Nothing,
            Intent::Quit => new == (App { exit: true, ..old }) && action is Quit,
            Intent::FilterToday => switched_filter(old, new, Filter::Today) && action is Nothing,
            Intent::FilterOverdue => switched_filter(old, new, Filter::Overdue) && action is Nothing,
            _ => if old.show_help {
                new == old && action is Nothing
            } else if intent == Intent::SwitchFocus {
                new == (App { current_focus: switched_focus(old.current_focus), ..old }) && action is Nothing
            } else {
                match old.current_focus {
                    CurrentFocus::Projects => projects_step(old, new, intent, action),
                    CurrentFocus::Tasks => tasks_step(old, new, intent, action),
                    CurrentFocus::Help => new == old && action is Nothing,
                }
            },
        }
    }
}

impl App {
    pub open spec fn wf(&self) -> bool {
        self.tasks.wf()
    }

    /// An empty application: no projects, no tasks, nothing open.
    pub fn new() -> (r: App)
        ensures
            r.wf(),
            r.tasks.tasks@.len() == 0,
            r.projects.projects@.len() == 0,
            !r.exit && !r.show_help && !r.show_task_editor && !r.show_new_task,
            r.error_message is None,
            r.current_focus == CurrentFocus::Projects,
    {
        App {
            current_screen: CurrentScreen::Main,
            exit: false,
            projects: Projects::new(Vec::new()),
            current_focus: CurrentFocus::Projects,
            tasks: Tasks::new(Vec::new()),
            show_help: false,
            sections: Sections::new(Vec::new()),
            show_task_editor: false,
            task_edit: TaskEdit::new(String::new(), String::new(), String::new(), Vec::new(), 0, CurrentlyEditing::Content),
            show_new_task: false,
            new_task: NewTask::blank(),
            error_message: None,
        }
    }

    /// Merges the result of a remote mutation, with `today` as the local date:
    /// a created task joins the end of the store and the display list is
    /// recomputed; a confirmed update changes nothing, as the store already
    /// holds its fields; a failure becomes the error on display and the store
    /// stays as it is.
    pub fn apply_result(&mut self, kind: MutationKind, result: TaskResult, today: &Date)
        requires
            old(self).wf(),
            old(self).tasks.tasks@.len() < usize::MAX,
        ensures
            final(self).wf(),
            match result {
                TaskResult::Task(t) => if kind == MutationKind::Create {
                    &&& *final(self) == (App { tasks: final(self).tasks, ..*old(self) })
                    &&& final(self).tasks.tasks@ == old(self).tasks.tasks@.push(t)
                    &&& final(self).tasks.filter == old(self).tasks.filter
                    &&& final(self).tasks.display_tasks@ == display_spec(
                        final(self).tasks.tasks@,
                        old(self).tasks.filter,
                        *today,
                    )
                    &&& final(self).tasks.state == (ListCursor { selected: None, offset: 0 })
                } else {
                    *final(self) == *old(self)
                },
                TaskResult::Error(m) => *final(self) == (App { error_message: Some(m), ..*old(self) }),
            },
    {
        match result {
            TaskResult::Task(t) => {
                if kind == MutationKind::Create {
                    self.tasks.append(t);
                    self.tasks.refresh_display(today);
                }
            },
            TaskResult::Error(m) => {
                self.error_message = Some(m);
            },
        }
    }

    /// Merges the result of a remote mutation as `apply_result` does, with
    /// the local date of the moment.
    pub fn reconcile(&mut self, kind: MutationKind, result: TaskResult)
        requires
            old(self).wf(),
            old(self).tasks.tasks@.len() < usize::MAX,
        ensures
            final(self).wf(),
            match result {
                TaskResult::Task(t) => if kind == MutationKind::Create {
                    &&& *final(self) == (App { tasks: final(self).tasks, ..*old(self) })
                    &&& final(self).tasks.tasks@ == old(self).tasks.tasks@.push(t)
                    &&& final(self).tasks.filter == old(self).tasks.filter
                    &&& final(self).tasks.state == (ListCursor { selected: None, offset: 0 })
                    &&& exists|today: Date|
                        today.in_calendar_range() && final(self).tasks.display_tasks@ == display_spec(
                            final(self).tasks.tasks@,
                            old(self).tasks.filter,
                            today,
                        )
                } else {
                    *final(self) == *old(self)
                },
                TaskResult::Error(m) => *final(self) == (App { error_message: Some(m), ..*old(self) }),
            },
    {
        let today = local_today();
        self.apply_result(kind, result, &today);
    }

    /// Hides the error on display.
    pub fn dismiss_error(&mut self)
        ensures
            *final(self) == (App { error_message: None, ..*old(self) }),
    {
        self.error_message = None;
    }
}

/// Opening the selected task for edit and then cancelling leaves the store
/// as it was, whatever the session held.
pub proof fn lemma_open_then_cancel_keeps_store(a: App, b: App, c: App, opened: Action, cancelled: Action)
    requires
        !a.show_task_editor,
        !a.show_new_task,
        a.error_message is None,
        !a.show_help,
        a.current_focus == CurrentFocus::Tasks,
        intent_step(a, b, Intent::Confirm, opened),
        b.show_task_editor,
        intent_step(b, c, Intent::Cancel, cancelled),
    ensures
        c.tasks == a.tasks,
        !c.show_task_editor,
{
}

/// Carries out `intent` while the project list has the focus.
pub fn handle_projects(app: &mut App, intent: Intent) -> (r: Action)
    requires
        old(app).wf(),
    ensures
        final(app).wf(),
        projects_step(*old(app), *final(app), intent, r),
{
    match intent {
        Intent::SelectNext | Intent::SelectPrevious => {
            if intent == Intent::SelectNext {
                app.projects.next();
            } else {
                app.projects.previous();
            }
            match app.projects.selected_id() {
                Some(id) => {
                    app.tasks.filter = Filter::ProjectId(id.clone());
                    app.tasks.filter_task_list();
                    app.projects.selected_project = Some(id);
                },
                None => {},
            }
        },
        Intent::AddTask => {
            match app.projects.selected_id() {
                Some(id) => {
                    app.show_new_task = true;
                    app.new_task = NewTask::new(id, None);
                },
                None => {},
            }
        },
        _ => {},
    }
    Action::Nothing
}

/// Carries out `intent` while the task list has the focus.
pub fn handle_tasks(app: &mut App, intent: Intent) -> (r: Action)
    requires
        old(app).wf(),
    ensures
        final(app).wf(),
        tasks_step(*old(app), *final(app), intent, r),
{
    match intent {
        Intent::SelectNext => {
            app.tasks.next();
            Action::Nothing
        },
        Intent::SelectPrevious => {
            app.tasks.previous();
            Action::Nothing
        },
        Intent::Confirm => {
            match app.tasks.selected_index() {
                Some(k) => {
                    match TaskEdit::open(&app.tasks, k) {
                        Ok(s) => {
                            app.task_edit = s;
                            app.show_task_editor = true;
                        },
                        Err(_) => {},
                    }
                },
                None => {},
            }
            Action::Nothing
        },
        Intent::CloseTask | Intent::DeleteTask => {
            match app.tasks.selected_index() {
                Some(k) => {
                    let id = app.tasks.tasks[k].id.clone();
                    app.tasks.remove_at(k);
                    app.tasks.filter_task_list();
                    if intent == Intent::CloseTask {
                        Action::Close(id)
                    } else {
                        Action::Delete(id)
                    }
                },
                None => Action::Nothing,
            }
        },
        Intent::AddTask => {
            match app.projects.selected_id() {
                Some(id) => {
                    app.show_new_task = true;
                    app.new_task = NewTask::new(id, None);
                },
                None => {},
            }
            Action::Nothing
        },
        _ => Action::Nothing,
    }
}

/// Carries out `intent` while an edit session is open.
pub fn handle_task_editor(app: &mut App, intent: Intent) -> (r: Action)
    requires
        old(app).wf(),
    ensures
        final(app).wf(),
        task_editor_step(*old(app), *final(app), intent, r),
{
    let browsing = app.task_edit.currently_editing == CurrentlyEditing::ChildTasks;
    match intent {
        Intent::Cancel => {
            app.show_task_editor = false;
            Action::Nothing
        },
        Intent::NextField => {
            app.task_edit.next_field();
            Action::Nothing
        },
        Intent::SelectNext => {
            if browsing {
                app.task_edit.next();
            }
            Action::Nothing
        },
        Intent::SelectPrevious => {
            if browsing {
                app.task_edit.previous();
            }
            Action::Nothing
        },
        Intent::Confirm => {
            if browsing {
                match app.task_edit.drill_into_child(&app.tasks) {
                    Ok(Some(s)) => {
                        app.task_edit = s;
                        app.show_task_editor = true;
                    },
                    Ok(None) => {},
                    Err(_) => {
                        app.show_task_editor = false;
                    },
                }
                Action::Nothing
            } else {
                app.show_task_editor = false;
                match app.task_edit.commit(&mut app.tasks) {
                    Ok(req) => Action::Update(req),
                    Err(_) => Action::Nothing,
                }
            }
        },
        Intent::AddTask => {
            app.show_task_editor = false;
            match app.task_edit.spawn_subtask(&app.tasks) {
                Ok(d) => {
                    app.new_task = d;
                    app.show_new_task = true;
                },
                Err(_) => {},
            }
            Action::Nothing
        },
        _ => Action::Nothing,
    }
}

/// Carries out `intent` while a draft is open.
pub fn handle_new_tasks(app: &mut App, intent: Intent) -> (r: Action)
    requires
        old(app).wf(),
    ensures
        final(app).wf(),
        new_task_step(*old(app), *final(app), intent, r),
{
    match intent {
        Intent::Cancel => {
            app.show_new_task = false;
            Action::Nothing
        },
        Intent::Confirm => {
            app.show_new_task = false;
            let mut draft = NewTask::blank();
            std::mem::swap(&mut draft, &mut app.new_task);
            Action::Create(draft)
        },
        Intent::NextField => {
            app.new_task.next_field();
            Action::Nothing
        },
        _ => Action::Nothing,
    }
}

/// Carries out one intent of the user and returns the remote work it calls
/// for.
pub fn handle_intent(app: &mut App, intent: Intent) -> (r: Action)
    requires
        old(app).wf(),
    ensures
        final(app).wf(),
        intent_step(*old(app), *final(app), intent, r),
{
    if app.show_task_editor {
        return handle_task_editor(app, intent);
    }
    if app.show_new_task {
        return handle_new_tasks(app, intent);
    }
    if app.error_message.is_some() && intent == Intent::Cancel {
        app.dismiss_error();
        return Action::Nothing;
    }
    match intent {
        Intent::ToggleHelp => {
            app.show_help = !app.show_help;
            Action::Nothing
        },
        Intent::Quit => {
            app.exit = true;
            Action::Quit
        },
        Intent::FilterToday | Intent::FilterOverdue => {
            app.tasks.filter = if intent == Intent::FilterToday {
                Filter::Today
            } else {
                Filter::Overdue
            };
            app.tasks.filter_task_list();
            app.projects.unselect();
            Action::Nothing
        },
        _ => {
            if app.show_help {
                Action::Nothing
            } else if intent == Intent::SwitchFocus {
                app.current_focus = match app.current_focus {
                    CurrentFocus::Projects => CurrentFocus::Tasks,
                    CurrentFocus::Tasks => CurrentFocus::Projects,
                    CurrentFocus::Help => CurrentFocus::Help,
                };
                Action::Nothing
            } else {
                match app.current_focus {
                    CurrentFocus::Projects => handle_projects(app, intent),
                    CurrentFocus::Tasks => handle_tasks(app, intent),
                    CurrentFocus::Help => Action::Nothing,
                }
            }
        },
    }
}

} // verus!
