//! The command that lists the habits.

pub mod cli;
pub mod engine;

pub use cli::ListCli;
pub use engine::{get_engine, ListEngine};
