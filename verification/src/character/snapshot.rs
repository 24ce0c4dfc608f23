//! The read-only view of a character that a behaviour tree is ticked with.

use vstd::prelude::*;
use crate::directions::Direction;
use crate::fixed::Fixed;
use crate::vector2d::Vector2D;

verus! {

pub type CharacterId = u64;

/// What a character looked like when the snapshot was taken. The
/// character's blackboard is handed to the tree beside the snapshot.
#[derive(Clone, Copy, Debug, PartialEq, Eq, Structural)]
pub struct CharacterSnapshot {
    pub id: CharacterId,
    pub position: Vector2D,
    pub direction: Direction,
    pub velocity: Vector2D,
    pub is_idle: bool,
    pub current_speed: Fixed,
}

} // verus!
