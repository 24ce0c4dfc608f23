//! Standing still.

use vstd::prelude::*;
use crate::fsm::StateType;

verus! {

/// The character stands. It may start to run or to turn at any time.
#[derive(PartialEq, Eq, Debug, Clone, Copy, Structural)]
pub struct IdleState {}

impl IdleState {
    pub fn new() -> (r: Self) {
        Self {  }
    }

    pub fn get_type(&self) -> (r: StateType)
        ensures
            r == StateType::IDLE,
    {
        StateType::IDLE
    }

    pub fn can_transition_to(&self, state_type: StateType) -> (r: bool)
        ensures
            r == (state_type == StateType::RUN || state_type == StateType::TURN),
    {
        match state_type {
            StateType::RUN => true,
            StateType::TURN => true,
            StateType::IDLE => false,
        }
    }

    pub fn can_exit(&self) -> (r: bool)
        ensures
            r,
    {
        true
    }
}

} // verus!
