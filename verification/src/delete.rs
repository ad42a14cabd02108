//! The command that deletes a habit.

pub mod cli;
pub mod engine;

pub use cli::DeleteCli;
pub use engine::{get_engine, DeleteEngine};
