//! A single-file task list: the tasks, the four operations on them, and the
//! text each operation reports.
//!
//! The list is a plain `Vec<Task>`. Every operation is specified over the
//! sequence of task views in `model`; `command` carries out one request in
//! full and says what to show and whether the list has to be stored anew.
//! Reading and writing the store are left to the caller.

pub mod task;
pub mod decimal;
pub mod model;
pub mod ops;
pub mod command;
pub mod laws;

pub use crate::command::{execute, Command, Report};
pub use crate::decimal::decimal_string;
pub use crate::ops::{add_task, change_task_status, delete_task, find_task, list_tasks};
pub use crate::task::Task;
