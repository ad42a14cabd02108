//! Habit tracking: the data model of habits, the calendar grid that classifies
//! every day of a year for one habit, and the state machine and layout of the
//! terminal session that shows it.

pub mod calendar;
pub mod cli;
pub mod delete;
pub mod edit;
pub mod engine;
pub mod habit;
pub mod list;
pub mod log;
pub mod new;
pub mod show;
pub mod utils;
