//! Walking to a point.

use vstd::prelude::*;
use crate::fixed::Fixed;
use crate::fsm::StateType;
use crate::vector2d::Vector2D;

verus! {

/// The stride of a walk whose speed was not taken from a character, in
/// thousandths of a unit per unit of time.
pub const DEFAULT_WALK_SPEED: i32 = 100_000;

/// The character walks to `target` at `speed`. The state cannot be left
/// before the point is reached, and then only for the idle state.
#[derive(PartialEq, Eq, Debug, Clone, Copy, Structural)]
pub struct WalkState {
    pub target: Vector2D,
    pub speed: Fixed,
    pub can_exit: bool,
}

impl WalkState {
    pub open spec fn spec_new(target: Vector2D) -> Self {
        Self { target, speed: Fixed { raw: DEFAULT_WALK_SPEED }, can_exit: false }
    }

    pub fn new(target: Vector2D) -> (r: Self)
        ensures
            r == Self::spec_new(target),
    {
        Self { target, speed: Fixed { raw: DEFAULT_WALK_SPEED }, can_exit: false }
    }

    /// A walk counts as a run.
    pub fn get_type(&self) -> (r: StateType)
        ensures
            r == StateType::RUN,
    {
        StateType::RUN
    }

    pub fn can_transition_to(&self, state_type: StateType) -> (r: bool)
        ensures
            r == (state_type == StateType::IDLE),
    {
        match state_type {
            StateType::IDLE => true,
            _ => false,
        }
    }

    pub fn can_exit(&self) -> (r: bool)
        ensures
            r == self.can_exit,
    {
        self.can_exit
    }
}

} // verus!
