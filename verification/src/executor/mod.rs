//! Feeding scripted commands to a character, one at a time.

use vstd::prelude::*;

pub mod command_executor;

pub use command_executor::CommandExecutor;

verus! {

/// What a tick of the executor found.
#[derive(Debug, Clone, Copy, PartialEq, Eq, Structural)]
pub enum ExecutorResult {
    /// The character is busy, or has just been sent to the next cell.
    Running,
    /// The character is idle and no command is left.
    Empty,
    /// The character has been asked to turn toward the next command's
    /// direction.
    Turn,
}

} // verus!
