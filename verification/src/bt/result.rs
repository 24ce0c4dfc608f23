//! What a tick of the tree returns.

use vstd::prelude::*;
use crate::bt::command::BTCommand;

verus! {

/// The commands of one tick, in the order in which they are to be applied.
#[derive(Debug, Clone, PartialEq)]
pub struct BTResult {
    pub commands: Vec<BTCommand>,
}

impl BTResult {
    /// A result without commands.
    pub fn empty() -> (r: Self)
        ensures
            r.commands@ == Seq::<BTCommand>::empty(),
    {
        BTResult { commands: Vec::new() }
    }
}

} // verus!
