use vstd::prelude::*;

verus! {

/// The arguments of the command that logs a rep.
#[derive(Debug, Clone, PartialEq, Eq)]
pub struct LogCli {
    /// The name of the habit for which to log a rep.
    pub habit: String,
}

} // verus!
