//! The command that logs a rep of a habit.

pub mod cli;
pub mod engine;

pub use cli::LogCli;
pub use engine::{get_engine, LogEngine};
