//! A small single-user task tracker: tasks (summary, assignee, status,
//! creation timestamp) are persisted to a local SQLite store and rendered
//! as an aligned console table.
//!
//! The crate is laid out along the program's components: [`task`] holds
//! the task record and its status codes, [`menu`] the shell's selection
//! parsing, [`storage`] the gateway to the SQLite store, and [`render`]
//! the projection of tasks onto the console table.

pub mod menu;
pub mod render;
pub mod storage;
pub mod task;
