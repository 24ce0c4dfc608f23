//! The states of a character and the rules for leaving them.

use vstd::prelude::*;
use crate::character::request::StateRequest;

pub mod idle;
pub mod run;
pub mod turn;
pub mod walk;

pub use idle::IdleState;
pub use run::RunState;
pub use turn::TurnState;
pub use walk::WalkState;

verus! {

/// The coarse kind of a state, by which transitions are allowed or refused.
#[derive(PartialEq, Eq, Debug, Clone, Copy, Structural)]
pub enum StateType {
    RUN,
    TURN,
    IDLE,
}

/// The state a character is in.
#[derive(PartialEq, Eq, Debug, Clone, Copy, Structural)]
pub enum State {
    Idle(IdleState),
    Run(RunState),
    Turn(TurnState),
    Walk(WalkState),
}

impl StateType {
    /// The upper-case name of the kind.
    pub open spec fn spec_name(self) -> Seq<char> {
        match self {
            StateType::RUN => "RUN"@,
            StateType::TURN => "TURN"@,
            StateType::IDLE => "IDLE"@,
        }
    }

    /// The upper-case name of the kind: `RUN`, `TURN` or `IDLE`.
    pub fn name(&self) -> (r: &'static str)
        ensures
            r@ == self.spec_name(),
    {
        match self {
            StateType::RUN => "RUN",
            StateType::TURN => "TURN",
            StateType::IDLE => "IDLE",
        }
    }

    /// The kind of state that a request asks for. Walking counts as running.
    pub open spec fn spec_of_request(req: StateRequest) -> StateType {
        match req {
            StateRequest::Idle => StateType::IDLE,
            StateRequest::Run => StateType::RUN,
            StateRequest::Turn(_) => StateType::TURN,
            StateRequest::WalkTo(_) => StateType::RUN,
        }
    }

    /// The kind of state that a request asks for.
    pub fn of_request(req: &StateRequest) -> (r: StateType)
        ensures
            r == Self::spec_of_request(*req),
    {
        match req {
            StateRequest::Idle => StateType::IDLE,
            StateRequest::Run => StateType::RUN,
            StateRequest::Turn(_) => StateType::TURN,
            StateRequest::WalkTo(_) => StateType::RUN,
        }
    }
}

impl State {
    /// The state in which a character starts to serve a request.
    pub open spec fn spec_for_request(req: StateRequest) -> State {
        match req {
            StateRequest::Idle => State::Idle(IdleState {  }),
            StateRequest::Run => State::Run(RunState {  }),
            StateRequest::Turn(direction) => State::Turn(TurnState::spec_new(direction)),
            StateRequest::WalkTo(target) => State::Walk(WalkState::spec_new(target)),
        }
    }

    /// The state in which a character starts to serve a request.
    pub fn for_request(req: StateRequest) -> (r: State)
        ensures
            r == Self::spec_for_request(req),
    {
        match req {
            StateRequest::Idle => State::Idle(IdleState::new()),
            StateRequest::Run => State::Run(RunState::new()),
            StateRequest::Turn(direction) => State::Turn(TurnState::new(direction)),
            StateRequest::WalkTo(target) => State::Walk(WalkState::new(target)),
        }
    }

    pub open spec fn spec_type(self) -> StateType {
        match self {
            State::Idle(_) => StateType::IDLE,
            State::Run(_) => StateType::RUN,
            State::Turn(_) => StateType::TURN,
            State::Walk(_) => StateType::RUN,
        }
    }

    /// Whether the state may be left for one of kind `target`.
    pub open spec fn spec_allows(self, target: StateType) -> bool {
        match self {
            State::Idle(_) => target == StateType::RUN || target == StateType::TURN,
            State::Run(_) => target == StateType::IDLE,
            State::Turn(_) => true,
            State::Walk(_) => target == StateType::IDLE,
        }
    }

    /// Whether the state may be left at all.
    pub open spec fn spec_can_exit(self) -> bool {
        match self {
            State::Idle(_) => true,
            State::Run(_) => true,
            State::Turn(s) => s.can_exit,
            State::Walk(s) => s.can_exit,
        }
    }

    /// The kind of the state.
    pub fn get_type(&self) -> (r: StateType)
        ensures
            r == self.spec_type(),
    {
        match self {
            State::Idle(s) => s.get_type(),
            State::Run(s) => s.get_type(),
            State::Turn(s) => s.get_type(),
            State::Walk(s) => s.get_type(),
        }
    }

    /// Whether the state may be left for one of kind `state_type`.
    pub fn can_transition_to(&self, state_type: StateType) -> (r: bool)
        ensures
            r == self.spec_allows(state_type),
    {
        match self {
            State::Idle(s) => s.can_transition_to(state_type),
            State::Run(s) => s.can_transition_to(state_type),
            State::Turn(s) => s.can_transition_to(state_type),
            State::Walk(s) => s.can_transition_to(state_type),
        }
    }

    /// Whether the state may be left at all.
    pub fn can_exit(&self) -> (r: bool)
        ensures
            r == self.spec_can_exit(),
    {
        match self {
            State::Idle(s) => s.can_exit(),
            State::Run(s) => s.can_exit(),
            State::Turn(s) => s.can_exit(),
            State::Walk(s) => s.can_exit(),
        }
    }
}

} // verus!
