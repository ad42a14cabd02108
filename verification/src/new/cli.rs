use vstd::prelude::*;

verus! {

/// The arguments of the command that makes a new habit: none.
#[derive(Debug, Clone, Copy, PartialEq, Eq, Structural)]
pub struct NewCli {}

} // verus!
