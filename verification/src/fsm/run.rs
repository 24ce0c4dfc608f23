//! Running straight ahead.

use vstd::prelude::*;
use crate::fsm::StateType;

verus! {

/// The character runs in the direction it faces. It may only stop.
#[derive(PartialEq, Eq, Debug, Clone, Copy, Structural)]
pub struct RunState {}

impl RunState {
    pub fn new() -> (r: Self) {
        Self {  }
    }

    pub fn get_type(&self) -> (r: StateType)
        ensures
            r == StateType::RUN,
    {
        StateType::RUN
    }

    pub fn can_transition_to(&self, state_type: StateType) -> (r: bool)
        ensures
            r == (state_type == StateType::IDLE),
    {
        match state_type {
            StateType::IDLE => true,
            _ => false,
        }
    }

    pub fn can_exit(&self) -> (r: bool)
        ensures
            r,
    {
        true
    }
}

} // verus!
