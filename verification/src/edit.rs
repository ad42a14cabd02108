//! The command that changes a habit.

pub mod cli;
pub mod engine;

pub use cli::{EditCli, What};
pub use engine::{get_engine, EditEngine};
