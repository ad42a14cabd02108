use vstd::prelude::*;

verus! {

/// The arguments of the command that deletes a habit.
#[derive(Debug, Clone, PartialEq, Eq)]
pub struct DeleteCli {
    /// The name of the habit to delete.
    pub habit: String,
}

} // verus!
