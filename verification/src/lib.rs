//! A personal task tracker: tasks with an optional due date, kept in a table,
//! listed with their deadlines highlighted.
//!
//! The library decides; a front end reads and writes. `store` holds the
//! table and its four operations, `task` tells how urgent a task is at a
//! given moment, `listing` lays out what is shown, `dialogue` and `input`
//! lead through the questions that come before a task is added, `schedule`
//! turns the answers into a deadline, and `cli` carries out a command.
//! `moment` is the library's clock value, `text` writes numbers and cells,
//! and `laws` states what holds between the operations.

pub mod cli;
pub mod dialogue;
pub mod error;
pub mod input;
pub mod laws;
pub mod listing;
pub mod moment;
pub mod schedule;
pub mod store;
pub mod task;
pub mod text;

pub use crate::cli::{add_item, execute, Cli, Commands, Effect};
pub use crate::error::TrackerError;
pub use crate::listing::list_items;
pub use crate::moment::Moment;
pub use crate::store::Store;
pub use crate::task::{classify, Category, Task};
pub use crate::text::slice_to_string;
