//! The edit session of an existing task: its text buffers, the field with the
//! focus, and the list of its direct sub-tasks.
use vstd::prelude::*;
use crate::cursor::{ListCursor, next_spec, previous_spec};
use crate::error::TaskError;
use crate::new_task::NewTask;
use crate::store::{Tasks, with_fields};
use crate::task::{Task, due_string_of, due_text, has_parent, is_child_of};

verus! {

/// The part of an edit session that has the focus.
#[derive(Clone, Copy, Debug, PartialEq, Eq, Structural)]
pub enum CurrentlyEditing {
    Content,
    Description,
    DueString,
    ChildTasks,
}

/// The focus after `f`: title, description, due text, sub-tasks, and back.
pub open spec fn next_edit_field(f: CurrentlyEditing) -> CurrentlyEditing {
    match f {
        CurrentlyEditing::Content => CurrentlyEditing::Description,
        CurrentlyEditing::Description => CurrentlyEditing::DueString,
        CurrentlyEditing::DueString => CurrentlyEditing::ChildTasks,
        CurrentlyEditing::ChildTasks => CurrentlyEditing::Content,
    }
}

/// The store positions of the direct sub-tasks of `id`, in store order.
pub open spec fn child_positions(tasks: Seq<Task>, id: Seq<char>) -> Seq<usize>
    decreases tasks.len(),
{
    if tasks.len() == 0 {
        Seq::empty()
    } else {
        let rest = child_positions(tasks.drop_last(), id);
        if has_parent(tasks.last(), id) {
            rest.push((tasks.len() - 1) as usize)
        } else {
            rest
        }
    }
}

/// The store positions of the direct sub-tasks of `id`, in store order.
pub fn children_positions(tasks: &Vec<Task>, id: &String) -> (r: Vec<usize>)
    ensures
        r@ == child_positions(tasks@, id@),
{
    let mut r: Vec<usize> = Vec::new();
    let mut i: usize = 0;
    while i < tasks.len()
        invariant
            i <= tasks@.len(),
            r@ == child_positions(tasks@.take(i as int), id@),
        decreases tasks@.len() - i,
    {
        assert(tasks@.take(i + 1).drop_last() =~= tasks@.take(i as int));
        if is_child_of(&tasks[i], id) {
            r.push(i);
        }
        i = i + 1;
    }
    assert(tasks@.take(i as int) =~= tasks@);
    r
}

/// What a commit sends to the remote service for an existing task.
#[derive(Debug)]
pub struct UpdateRequest {
    pub task_id: String,
    pub content: String,
    pub description: String,
    pub due_string: String,
}

/// An open edit session.
#[derive(Debug)]
pub struct TaskEdit {
    pub content: String,
    pub description: String,
    pub due_string: String,
    pub currently_editing: CurrentlyEditing,
    /// Store positions of the direct sub-tasks of the edited task.
    pub children: Vec<usize>,
    /// The selection in `children`.
    pub children_list_state: ListCursor,
    /// Store position of the edited task when the session opened.
    pub current_task_index: usize,
}

impl TaskEdit {
    /// A session on the task at `current_task_index` with the given buffers,
    /// sub-tasks and focus, and no sub-task selected.
    pub fn new(
        content: String,
        description: String,
        due_string: String,
        children: Vec<usize>,
        current_task_index: usize,
        currently_editing: CurrentlyEditing,
    ) -> (r: TaskEdit)
        ensures
            r.content == content,
            r.description == description,
            r.due_string == due_string,
            r.children == children,
            r.current_task_index == current_task_index,
            r.currently_editing == currently_editing,
            r.children_list_state.selected is None,
    {
        TaskEdit {
            content,
            description,
            due_string,
            currently_editing,
            children,
            children_list_state: ListCursor::new(),
            current_task_index,
        }
    }

    /// The session that opening the task at `index` of `tasks` gives: its
    /// buffers hold the task's title, description and due text, its sub-task
    /// list the positions of the task's direct sub-tasks, and the title has the
    /// focus.
    pub open spec fn opened_on(self, tasks: Seq<Task>, index: int) -> bool {
        &&& 0 <= index < tasks.len()
        &&& self.content@ == tasks[index].content@
        &&& self.description@ == tasks[index].description@
        &&& self.due_string@ == due_text(tasks[index])
        &&& self.children@ == child_positions(tasks, tasks[index].id@)
        &&& self.current_task_index == index
        &&& self.currently_editing == CurrentlyEditing::Content
        &&& self.children_list_state.selected is None
    }

    /// Opens a session on the task at store position `index`; fails with
    /// `StaleReference` when the store has no such position.
    pub fn open(store: &Tasks, index: usize) -> (r: Result<TaskEdit, TaskError>)
        ensures
            match r {
                Ok(s) => s.opened_on(store.tasks@, index as int),
                Err(e) => e is StaleReference && index >= store.tasks@.len(),
            },
    {
        if index >= store.tasks.len() {
            return Err(TaskError::StaleReference);
        }
        let t = &store.tasks[index];
        let children = children_positions(&store.tasks, &t.id);
        Ok(
            TaskEdit::new(
                t.content.clone(),
                t.description.clone(),
                due_string_of(t),
                children,
                index,
                CurrentlyEditing::Content,
            ),
        )
    }

    /// Selects the next sub-task, wrapping around.
    pub fn next(&mut self)
        ensures
            final(self).children_list_state.selected == next_spec(
                old(self).children_list_state.selected,
                old(self).children@.len(),
            ),
            final(self).children_list_state.offset == old(self).children_list_state.offset,
            final(self).children == old(self).children,
            final(self).current_task_index == old(self).current_task_index,
            final(self).currently_editing == old(self).currently_editing,
            final(self).content == old(self).content,
            final(self).description == old(self).description,
            final(self).due_string == old(self).due_string,
    {
        let n = self.children.len();
        self.children_list_state.select_next(n);
    }

    /// Selects the previous sub-task, wrapping around.
    pub fn previous(&mut self)
        ensures
            final(self).children_list_state.selected == previous_spec(
                old(self).children_list_state.selected,
                old(self).children@.len(),
            ),
            final(self).children_list_state.offset == old(self).children_list_state.offset,
            final(self).children == old(self).children,
            final(self).current_task_index == old(self).current_task_index,
            final(self).currently_editing == old(self).currently_editing,
            final(self).content == old(self).content,
            final(self).description == old(self).description,
            final(self).due_string == old(self).due_string,
    {
        let n = self.children.len();
        self.children_list_state.select_previous(n);
    }

    /// Moves the focus to the next part of the session.
    pub fn next_field(&mut self)
        ensures
            final(self).currently_editing == next_edit_field(old(self).currently_editing),
            final(self).children == old(self).children,
            final(self).children_list_state == old(self).children_list_state,
            final(self).current_task_index == old(self).current_task_index,
            final(self).content == old(self).content,
            final(self).description == old(self).description,
            final(self).due_string == old(self).due_string,
    {
        self.currently_editing = match self.currently_editing {
            CurrentlyEditing::Content => CurrentlyEditing::Description,
            CurrentlyEditing::Description => CurrentlyEditing::DueString,
            CurrentlyEditing::DueString => CurrentlyEditing::ChildTasks,
            CurrentlyEditing::ChildTasks => CurrentlyEditing::Content,
        };
    }

    /// Puts `text` in the buffer that has the focus; the sub-task list takes
    /// no text.
    pub fn set_focused_text(&mut self, text: String)
        ensures
            final(self).currently_editing == old(self).currently_editing,
            final(self).children == old(self).children,
            final(self).children_list_state == old(self).children_list_state,
            final(self).current_task_index == old(self).current_task_index,
            final(self).content == (if old(self).currently_editing == CurrentlyEditing::Content { text } else { old(self).content }),
            final(self).description == (if old(self).currently_editing == CurrentlyEditing::Description { text } else { old(self).description }),
            final(self).due_string == (if old(self).currently_editing == CurrentlyEditing::DueString { text } else { old(self).due_string }),
    {
        match self.currently_editing {
            CurrentlyEditing::Content => self.content = text,
            CurrentlyEditing::Description => self.description = text,
            CurrentlyEditing::DueString => self.due_string = text,
            CurrentlyEditing::ChildTasks => {},
        }
    }

    /// Writes the buffers into the edited task of `store` and returns the
    /// request that sends them to the remote service. Fails with
    /// `StaleReference`, leaving the store as it was, when the store no longer
    /// has the position the session was opened on.
    pub fn commit(&self, store: &mut Tasks) -> (r: Result<UpdateRequest, TaskError>)
        requires
            old(store).wf(),
        ensures
            final(store).wf(),
            final(store).filter == old(store).filter,
            final(store).tasks_with_children == old(store).tasks_with_children,
            final(store).state == old(store).state,
            final(store).display_tasks == old(store).display_tasks,
            match r {
                Ok(req) => {
                    let k = self.current_task_index as int;
                    &&& k < old(store).tasks@.len()
                    &&& final(store).tasks@ == old(store).tasks@.update(
                        k,
                        with_fields(old(store).tasks@[k], self.content, self.description, self.due_string),
                    )
                    &&& req.task_id@ == old(store).tasks@[k].id@
                    &&& req.content == self.content
                    &&& req.description == self.description
                    &&& req.due_string == self.due_string
                },
                Err(e) => e is StaleReference && self.current_task_index >= old(store).tasks@.len()
                    && *final(store) == *old(store),
            },
    {
        let k = self.current_task_index;
        if k >= store.tasks.len() {
            return Err(TaskError::StaleReference);
        }
        let task_id = store.tasks[k].id.clone();
        store.update_fields_at(k, self.content.clone(), self.description.clone(), self.due_string.clone());
        Ok(
            UpdateRequest {
                task_id,
                content: self.content.clone(),
                description: self.description.clone(),
                due_string: self.due_string.clone(),
            },
        )
    }

    /// While the sub-task list has the focus and a sub-task is selected, the
    /// session opened on that sub-task, which replaces this one. `Ok(None)`
    /// when there is nothing to open; `StaleReference` when the selected
    /// sub-task is no longer in the store.
    pub fn drill_into_child(&self, store: &Tasks) -> (r: Result<Option<TaskEdit>, TaskError>)
        ensures
            match r {
                Ok(Some(s)) => self.currently_editing == CurrentlyEditing::ChildTasks
                    && self.children_list_state.selected is Some
                    && self.children_list_state.selected.unwrap() < self.children@.len()
                    && s.opened_on(store.tasks@, self.children@[self.children_list_state.selected.unwrap() as int] as int),
                Ok(None) => self.currently_editing != CurrentlyEditing::ChildTasks
                    || self.children_list_state.selected is None
                    || self.children_list_state.selected.unwrap() >= self.children@.len(),
                Err(e) => e is StaleReference && self.currently_editing == CurrentlyEditing::ChildTasks
                    && self.children_list_state.selected is Some
                    && self.children_list_state.selected.unwrap() < self.children@.len()
                    && self.children@[self.children_list_state.selected.unwrap() as int] >= store.tasks@.len(),
            },
    {
        if self.currently_editing != CurrentlyEditing::ChildTasks {
            return Ok(None);
        }
        match self.children_list_state.selected {
            None => Ok(None),
            Some(i) => {
                if i >= self.children.len() {
                    return Ok(None);
                }
                match TaskEdit::open(store, self.children[i]) {
                    Ok(s) => Ok(Some(s)),
                    Err(e) => Err(e),
                }
            },
        }
    }

    /// A draft of a new sub-task of the edited task, in the same project.
    /// Fails with `StaleReference` when the store no longer has the position
    /// the session was opened on.
    pub fn spawn_subtask(&self, store: &Tasks) -> (r: Result<NewTask, TaskError>)
        ensures
            match r {
                Ok(d) => {
                    let t = store.tasks@[self.current_task_index as int];
                    &&& self.current_task_index < store.tasks@.len()
                    &&& d.is_fresh(t.project_id@, d.parent_id)
                    &&& d.parent_id == Some(t.id)
                },
                Err(e) => e is StaleReference && self.current_task_index >= store.tasks@.len(),
            },
    {
        let k = self.current_task_index;
        if k >= store.tasks.len() {
            return Err(TaskError::StaleReference);
        }
        let t = &store.tasks[k];
        Ok(NewTask::new(t.project_id.clone(), Some(t.id.clone())))
    }
}

} // verus!
