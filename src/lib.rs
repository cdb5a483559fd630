//! State layer of an interactive task manager: a local mirror of a remote,
//! hierarchical task list, the filtered views derived from it, modal edit
//! sessions, and the reconciliation of asynchronous mutation results.
pub mod control;
pub mod cursor;
pub mod display;
pub mod error;
pub mod new_task;
pub mod projects;
pub mod store;
pub mod task_edit;
pub mod task;
