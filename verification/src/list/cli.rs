use vstd::prelude::*;

verus! {

/// The arguments of the command that lists the habits.
#[derive(Debug, Clone, Copy, PartialEq, Eq, Structural)]
pub struct ListCli {
    /// Whether to show all of each habit, not just its name.
    pub verbose: bool,
}

} // verus!
