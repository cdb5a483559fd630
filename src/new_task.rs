//! The draft of a task that does not exist yet: the request that creates it.
use vstd::prelude::*;

verus! {

/// The field of a draft that receives typed text.
#[derive(Clone, Copy, Debug, PartialEq, Eq, Structural)]
pub enum CurrentlyEditing {
    Content,
    Description,
    DueString,
}

/// The field after `f` when cycling through a draft's fields.
pub open spec fn next_draft_field(f: CurrentlyEditing) -> CurrentlyEditing {
    match f {
        CurrentlyEditing::Content => CurrentlyEditing::Description,
        CurrentlyEditing::Description => CurrentlyEditing::DueString,
        CurrentlyEditing::DueString => CurrentlyEditing::Content,
    }
}

/// The unit of a task's expected duration.
#[derive(Clone, Copy, Debug, PartialEq, Eq, Structural)]
pub enum DurationUnit {
    Minute,
    Day,
}

/// A new task being drafted, under a project and possibly under a parent task.
#[derive(Debug)]
pub struct NewTask {
    pub content: String,
    pub description: String,
    pub project_id: Option<String>,
    pub section_id: Option<String>,
    pub parent_id: Option<String>,
    pub order: Option<usize>,
    pub labels: Option<Vec<String>>,
    pub priority: Option<u8>,
    pub due_string: String,
    pub due_date: Option<String>,
    pub due_datetime: Option<String>,
    pub due_lang: Option<String>,
    pub assignee_id: Option<String>,
    pub duration: Option<usize>,
    pub duration_unit: Option<DurationUnit>,
    pub currently_editing: CurrentlyEditing,
}

impl NewTask {
    /// The draft holds only its project and its parent, and all its text
    /// fields are empty.
    pub open spec fn is_fresh(self, project_id: Seq<char>, parent_id: Option<String>) -> bool {
        &&& self.project_id is Some && self.project_id.unwrap()@ == project_id
        &&& self.parent_id == parent_id
        &&& self.content@.len() == 0 && self.description@.len() == 0 && self.due_string@.len() == 0
        &&& self.section_id is None && self.order is None && self.labels is None
        &&& self.priority is None && self.due_date is None && self.due_datetime is None
        &&& self.due_lang is None && self.assignee_id is None && self.duration is None
        &&& self.duration_unit is None
        &&& self.currently_editing == CurrentlyEditing::Content
    }

    /// An empty draft under `project_id`, below `parent_id` if given.
    pub fn new(project_id: String, parent_id: Option<String>) -> (r: NewTask)
        ensures
            r.is_fresh(project_id@, parent_id),
    {
        NewTask {
            content: String::new(),
            description: String::new(),
            project_id: Some(project_id),
            section_id: None,
            parent_id,
            order: None,
            labels: None,
            priority: None,
            due_string: String::new(),
            due_date: None,
            due_datetime: None,
            due_lang: None,
            assignee_id: None,
            duration: None,
            duration_unit: None,
            currently_editing: CurrentlyEditing::Content,
        }
    }

    /// A draft with no project, no parent and empty fields.
    pub fn blank() -> (r: NewTask)
        ensures
            r.project_id is None,
            r.parent_id is None,
            r.content@.len() == 0 && r.description@.len() == 0 && r.due_string@.len() == 0,
            r.currently_editing == CurrentlyEditing::Content,
    {
        NewTask {
            content: String::new(),
            description: String::new(),
            project_id: None,
            section_id: None,
            parent_id: None,
            order: None,
            labels: None,
            priority: None,
            due_string: String::new(),
            due_date: None,
            due_datetime: None,
            due_lang: None,
            assignee_id: None,
            duration: None,
            duration_unit: None,
            currently_editing: CurrentlyEditing::Content,
        }
    }

    /// Moves the focus to the next field: title, description, due text, and
    /// back to the title.
    pub fn next_field(&mut self)
        ensures
            *final(self) == (NewTask {
                currently_editing: next_draft_field(old(self).currently_editing),
                ..*old(self)
            }),
    {
        self.currently_editing = match self.currently_editing {
            CurrentlyEditing::Content => CurrentlyEditing::Description,
            CurrentlyEditing::Description => CurrentlyEditing::DueString,
            CurrentlyEditing::DueString => CurrentlyEditing::Content,
        };
    }

    /// Puts `text` in the field that has the focus.
    pub fn set_focused_text(&mut self, text: String)
        ensures
            final(self).currently_editing == old(self).currently_editing,
            final(self).project_id == old(self).project_id,
            final(self).parent_id == old(self).parent_id,
            final(self).content == (if old(self).currently_editing == CurrentlyEditing::Content { text } else { old(self).content }),
            final(self).description == (if old(self).currently_editing == CurrentlyEditing::Description { text } else { old(self).description }),
            final(self).due_string == (if old(self).currently_editing == CurrentlyEditing::DueString { text } else { old(self).due_string }),
    {
        match self.currently_editing {
            CurrentlyEditing::Content => self.content = text,
            CurrentlyEditing::Description => self.description = text,
            CurrentlyEditing::DueString => self.due_string = text,
        }
    }
}

} // verus!
