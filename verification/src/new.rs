//! The command that makes a new habit.

pub mod cli;
pub mod engine;

pub use cli::NewCli;
pub use engine::{get_engine, NewEngine};
