//! Scripted commands.

use vstd::prelude::*;
use crate::directions::Direction;
use crate::fixed::Fixed;

verus! {

/// A command together with the line of the script that gave it.
#[derive(Debug, Clone, Copy, PartialEq, Eq, Structural)]
pub struct ExecutionPlayerCommand {
    pub command: PlayerCommand,
    pub line: usize,
}

/// A command of a script: a step to a neighbouring cell, or a pause.
#[derive(Debug, Clone, Copy, PartialEq, Eq, Structural)]
pub enum PlayerCommand {
    MoveNorth,
    MoveSouth,
    MoveEast,
    MoveWest,
    Wait(Fixed),
    Move(Direction),
}

impl PlayerCommand {
    pub open spec fn spec_direction(&self) -> Option<Direction> {
        match self {
            PlayerCommand::MoveNorth => Some(Direction::NORTH),
            PlayerCommand::MoveSouth => Some(Direction::SOUTH),
            PlayerCommand::MoveEast => Some(Direction::EAST),
            PlayerCommand::MoveWest => Some(Direction::WEST),
            PlayerCommand::Move(direction) => Some(*direction),
            PlayerCommand::Wait(_) => None,
        }
    }

    /// The direction in which the command moves the character; none for a
    /// pause.
    pub fn get_command_direction(&self) -> (r: Option<Direction>)
        ensures
            r == self.spec_direction(),
    {
        match self {
            PlayerCommand::MoveNorth => Some(Direction::NORTH),
            PlayerCommand::MoveSouth => Some(Direction::SOUTH),
            PlayerCommand::MoveEast => Some(Direction::EAST),
            PlayerCommand::MoveWest => Some(Direction::WEST),
            PlayerCommand::Move(direction) => Some(*direction),
            _ => None,
        }
    }
}

} // verus!
