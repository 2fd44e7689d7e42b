//! A single-user task tracker: a store of tasks with a lifecycle status, and a
//! parser that turns command-line tokens into one action on that store.
//!
//! Every operation states what it does over a mathematical model: a
//! [`Tracker`] is seen as a [`TrackerView`], a sequence of tasks in the order
//! in which they were added and the highest id ever given out. The modules:
//!
//! - [`action`]: the command line, read into an [`Action`];
//! - [`tracker`]: the store and its operations;
//! - [`manager`]: a store that is changed by direct calls;
//! - [`task`], [`status`], [`time`]: a task and what it is made of;
//! - [`number`]: task ids as decimal text;
//! - [`error`]: the closed set of failures;
//! - [`laws`]: what holds of the operations taken together.
//!
//! The time comes from the system clock, through chrono. The operations that
//! read it have a twin that takes the time as an argument (`add_at` beside
//! `add`), and that twin says exactly what the store is afterwards.

pub mod action;
pub mod error;
pub mod laws;
pub mod manager;
pub mod number;
pub mod status;
pub mod task;
pub mod text;
pub mod time;
pub mod tracker;

pub use crate::action::{Action, ActionView};
pub use crate::error::{ArgumentError, ArgumentErrorView, Command, Error, ErrorView, IdError};
pub use crate::manager::TaskManager;
pub use crate::status::Status;
pub use crate::task::{Task, TaskView};
pub use crate::time::Timestamp;
pub use crate::tracker::{Tracker, TrackerView};
