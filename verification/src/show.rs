//! The interactive year view of a habit.

pub mod cli;
pub mod engine;
pub mod grid;
pub mod layout;
pub mod state;
pub mod ui;
pub mod viz;

pub use cli::ShowCli;
pub use engine::{get_engine, ShowEngine};

use vstd::prelude::*;

verus! {

/// The ways to show the progress of a habit, as the command line names them.
#[derive(Debug, Clone, Copy, PartialEq, Eq, Structural)]
pub enum How {
    HeatMap,
    BowlOfMarbles,
}

} // verus!
