//! A task list for the terminal and what goes with it: the tasks and their
//! dates, the state on the screen and the commands and keys that change it,
//! the export of the list as a calendar, a small list of pets, and a
//! work-stealing scheduler that spreads units of work over worker threads.
//!
//! Everything here decides and computes; nothing here reads a key, draws
//! on a screen, opens a file or starts a thread. Whoever drives the library
//! does that and hands the library plain values.

pub mod app;
pub mod command;
pub mod date;
pub mod export;
pub mod input;
pub mod pets;
pub mod scheduler;
pub mod task;
pub mod task_manager;
pub mod text;
pub mod ui;
