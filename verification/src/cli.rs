//! The command line: one command with its arguments.

use crate::delete::DeleteCli;
use crate::edit::EditCli;
use crate::list::ListCli;
use crate::log::LogCli;
use crate::new::NewCli;
use crate::show::ShowCli;
use vstd::prelude::*;

verus! {

/// The arguments of a run of the program.
#[derive(Debug, Clone)]
pub struct Cli {
    pub command: Command,
}

/// A command with its arguments.
#[derive(Debug, Clone, PartialEq, Eq)]
pub enum Command {
    New(NewCli),
    Edit(EditCli),
    Delete(DeleteCli),
    List(ListCli),
    Log(LogCli),
    Show(ShowCli),
}

} // verus!
