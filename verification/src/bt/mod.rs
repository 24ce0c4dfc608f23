//! The behaviour tree: nodes, their run-time memory and the commands they
//! emit.

use vstd::prelude::*;
use crate::bt::blackboard::{Board, Value};
use crate::bt::command::BTCommand;
use crate::bt::result::BTResult;

pub mod blackboard;
pub mod command;
pub mod job;
pub mod leafs;
pub mod nodes;
pub mod result;
pub mod tree;

pub use blackboard::Blackboard;
pub use tree::{BTRef, BehaviourTree};

verus! {

/// The outcome of one tick of a node.
#[derive(PartialEq, Eq, Debug, Clone, Copy, Structural)]
pub enum NodeStatus {
    RUNNING,
    SUCCESS,
    FAILURE,
}

/// Everything that one tick of a node determines: its status, the commands
/// it emits and the blackboard it leaves behind.
pub struct Outcome {
    pub status: NodeStatus,
    pub commands: Seq<BTCommand>,
    pub board: Board,
}

/// The outcome that an executed tick stands for.
pub open spec fn outcome_of(r: (NodeStatus, BTResult), board: Board) -> Outcome {
    Outcome { status: r.0, commands: r.1.commands@, board }
}

/// The value stored under `key`, if any.
pub open spec fn lookup(board: Board, key: Seq<char>) -> Option<Value> {
    if board.contains_key(key) {
        Some(board[key])
    } else {
        None
    }
}

} // verus!
