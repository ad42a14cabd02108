use vstd::prelude::*;

verus! {

/// The arguments of the command that shows the progress of a habit.
#[derive(Debug, Clone, PartialEq, Eq)]
pub struct ShowCli {
    /// The name of the habit to show first. Without one it is the habit
    /// that a rep was logged for most recently.
    pub habit: Option<String>,
}

} // verus!
