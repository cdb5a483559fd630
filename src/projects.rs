//! The project list and its selection.
use vstd::prelude::*;
use crate::cursor::{ListCursor, next_spec, previous_spec};
use crate::task::Project;

verus! {

/// The projects known locally, the selection among them, and the id of the
/// project whose tasks are on display.
#[derive(Debug)]
pub struct Projects {
    pub projects: Vec<Project>,
    pub state: ListCursor,
    pub selected_project: Option<String>,
}

impl Projects {
    /// Holds `items`, with nothing selected.
    pub fn new(items: Vec<Project>) -> (r: Projects)
        ensures
            r.projects@ == items@,
            r.state.selected is None,
            r.selected_project is None,
    {
        Projects { projects: items, state: ListCursor::new(), selected_project: None }
    }

    /// Selects the next project, wrapping around.
    pub fn next(&mut self)
        ensures
            final(self).state.selected == next_spec(old(self).state.selected, old(self).projects@.len()),
            final(self).state.offset == old(self).state.offset,
            final(self).projects == old(self).projects,
            final(self).selected_project == old(self).selected_project,
    {
        let n = self.projects.len();
        self.state.select_next(n);
    }

    /// Selects the previous project, wrapping around.
    pub fn previous(&mut self)
        ensures
            final(self).state.selected == previous_spec(old(self).state.selected, old(self).projects@.len()),
            final(self).state.offset == old(self).state.offset,
            final(self).projects == old(self).projects,
            final(self).selected_project == old(self).selected_project,
    {
        let n = self.projects.len();
        self.state.select_previous(n);
    }

    /// Drops the selection; the list stays scrolled where it was.
    pub fn unselect(&mut self)
        ensures
            final(self).state.selected is None,
            final(self).state.offset == old(self).state.offset,
            final(self).projects == old(self).projects,
            final(self).selected_project == old(self).selected_project,
    {
        self.state.unselect();
    }

    /// The id of the selected project, if a project is selected.
    pub fn selected_id(&self) -> (r: Option<String>)
        ensures
            match self.state.selected {
                Some(i) => if i < self.projects@.len() {
                    r == Some(self.projects@[i as int].id)
                } else {
                    r is None
                },
                None => r is None,
            },
    {
        match self.state.selected {
            Some(i) => {
                if i < self.projects.len() {
                    Some(self.projects[i].id.clone())
                } else {
                    None
                }
            },
            None => None,
        }
    }
}

} // verus!
