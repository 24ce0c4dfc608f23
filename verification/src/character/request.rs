//! Requests to change a character's state.

use vstd::prelude::*;
use crate::directions::Direction;
use crate::vector2d::Vector2D;

verus! {

/// A state that a collaborator asks a character to enter.
#[derive(Debug, Clone, Copy, PartialEq, Eq, Structural)]
pub enum StateRequest {
    Idle,
    Run,
    Turn(Direction),
    WalkTo(Vector2D),
}

} // verus!
