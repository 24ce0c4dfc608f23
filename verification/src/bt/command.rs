//! The commands that a tree hands to its character.

use vstd::prelude::*;
use crate::character::request::StateRequest;
use crate::directions::Direction;
use crate::vector2d::Vector2D;

verus! {

/// One intent produced by a tick of the tree.
#[derive(Debug, Clone, PartialEq)]
pub enum BTCommand {
    MoveToward(Vector2D),
    SetDirection(Direction),
    PlayAnimation(String),
    ChangeState(StateRequest),
    SnapToCell,
    Custom(String),
}

} // verus!
