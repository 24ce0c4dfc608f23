//! The commands that a character carries out.

use vstd::prelude::*;
use crate::character::request::StateRequest;
use crate::directions::Direction;
use crate::vector2d::Vector2D;

verus! {

/// One thing that a character is told to do.
#[derive(Debug, Clone, PartialEq)]
pub enum CharacterCommand {
    MoveToward(Vector2D),
    SetDirection(Direction),
    PlayAnimation(String),
    ChangeState(StateRequest),
    SnapToCell,
}

} // verus!
