use vstd::prelude::*;

verus! {

/// The arguments of the command that changes a habit.
#[derive(Debug, Clone, PartialEq, Eq)]
pub struct EditCli {
    /// The name of the habit to change.
    pub habit: String,
    /// What to change of it.
    pub what: What,
}

/// A part of a habit that can be changed.
#[derive(Debug, Clone, Copy, PartialEq, Eq, Structural)]
pub enum What {
    Name,
    Description,
    Days,
    At,
}

} // verus!
