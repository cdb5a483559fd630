//! What can go wrong locally in the state layer. A failed remote mutation is
//! not among these: it arrives as `TaskResult::Error` and is shown to the user.
use vstd::prelude::*;

verus! {

/// The failures of store operations and edit sessions.
#[derive(Debug)]
pub enum TaskError {
    /// A store operation named an id that no task has.
    NotFound,
    /// An edit session outlived the task it was opened on.
    StaleReference,
}

} // verus!
