//! Turning to face another way.

use vstd::prelude::*;
use crate::directions::Direction;
use crate::fsm::StateType;

verus! {

/// The character turns toward `target`. The state cannot be left before the
/// turn is over.
#[derive(PartialEq, Eq, Debug, Clone, Copy, Structural)]
pub struct TurnState {
    pub target: Direction,
    pub can_exit: bool,
}

impl TurnState {
    pub open spec fn spec_new(target: Direction) -> Self {
        Self { target, can_exit: false }
    }

    pub fn new(target: Direction) -> (r: Self)
        ensures
            r == Self::spec_new(target),
    {
        Self { target, can_exit: false }
    }

    pub fn get_type(&self) -> (r: StateType)
        ensures
            r == StateType::TURN,
    {
        StateType::TURN
    }

    pub fn can_transition_to(&self, state_type: StateType) -> (r: bool)
        ensures
            r,
    {
        true
    }

    pub fn can_exit(&self) -> (r: bool)
        ensures
            r == self.can_exit,
    {
        self.can_exit
    }
}

} // verus!
