//! The character: a state machine that turns requests into motion over the
//! terrain.

use vstd::prelude::*;
use vstd::string::*;
use std::sync::Arc;
use crate::animator::Animator;
use crate::bt::command::BTCommand;
use crate::bt::job::BTJob;
use crate::bt::result::BTResult;
use crate::bt::tree::{BTRef, BehaviourTree};
use crate::character::request::StateRequest;
use crate::character::snapshot::{CharacterId, CharacterSnapshot};
use crate::directions::Direction;
use crate::fixed::{clamp_i32, saturate, Fixed};
use crate::fsm::{State, StateType, TurnState, WalkState};
use crate::logic_map::{floor_div, LogicMap, StepType};
use crate::vector2d::Vector2D;
use crate::vector2di::Vector2Di;

verus! {

/// The base speed of a new character, in thousandths of a unit per unit of
/// time.
pub const DEFAULT_SPEED: i32 = 100_000;

/// The cell size of a new character, in thousandths of a unit.
pub const DEFAULT_CELL_SIZE: i32 = 64_000;

/// The name of the animation of `action` in direction `direction`:
/// `run_east`, for one.
pub open spec fn animation_name(action: Seq<char>, direction: Direction) -> Seq<char> {
    action + "_"@ + direction.spec_name()
}

/// The name of the animation of a turn: `turn_north_east`, for one.
pub open spec fn turn_animation_name(from: Direction, to: Direction) -> Seq<char> {
    "turn_"@ + from.spec_name() + "_"@ + to.spec_name()
}

/// The message of a transition refused because the state cannot be left.
pub open spec fn locked_message() -> Seq<char> {
    "Cannot exit from the current state"@
}

/// The message of a transition that the current state does not allow.
pub open spec fn refused_message(from: StateType, to: StateType) -> Seq<char> {
    "Cannot make transition from "@ + from.spec_name() + " to "@ + to.spec_name()
}

/// `Arc::clone` of the standard library returns another handle to the same
/// tree.
#[verifier::external_body]
fn share_tree(tree: &BTRef) -> (r: BTRef)
    ensures
        r == *tree,
{
    Arc::clone(tree)
}

/// A character. Its position is kept by its animation sink.
pub struct CharacterLogic<A: Animator> {
    pub direction: Direction,
    /// The speed at which the character runs and walks.
    pub speed: Fixed,
    /// The speed at which the character moves right now.
    pub current_speed: Fixed,
    /// The state the character is in; none before its first transition.
    pub state: Option<State>,
    /// The request to be served at the next tick. A new request replaces
    /// the one that waits.
    pub pending_request: Option<StateRequest>,
    pub animator: A,
    pub cell_size: Fixed,
    pub id: CharacterId,
    pub bt: BTRef,
    /// The cell that the character occupied at the end of the last tick.
    pub prev_cell: Vector2Di,
}

impl<A: Animator> CharacterLogic<A> {
    /// The invariant of the type: cells have a positive size.
    pub open spec fn valid(&self) -> bool {
        self.cell_size.raw > 0
    }

    /// The character's position.
    pub open spec fn position(&self) -> Vector2D {
        self.animator.position()
    }

    /// The character after its sink has played `name`.
    pub open spec fn with_animation(self, name: Seq<char>) -> Self {
        Self { animator: self.animator.after_play(name), ..self }
    }

    /// The character after its sink has been moved to `position`.
    pub open spec fn with_position(self, position: Vector2D) -> Self {
        Self { animator: self.animator.after_set_position(position), ..self }
    }

    /// The cell of the grid of cell size `size` that holds `p`.
    pub open spec fn cell_of(p: Vector2D, size: Fixed) -> Vector2Di {
        Vector2Di {
            x: ((p.x.raw as int) / (size.raw as int)) as i32,
            y: ((p.y.raw as int) / (size.raw as int)) as i32,
        }
    }

    /// The centre of cell `(i, j)` of the grid of cell size `size`.
    pub open spec fn center_of(i: int, j: int, size: Fixed) -> Vector2D {
        Vector2D {
            x: Fixed { raw: clamp_i32(i * size.raw + size.raw / 2) },
            y: Fixed { raw: clamp_i32(j * size.raw + size.raw / 2) },
        }
    }

    pub open spec fn spec_get_cell_position(&self) -> Vector2Di {
        Self::cell_of(self.animator.global_position(), self.cell_size)
    }

    pub open spec fn spec_set_cell_position(self, i: i32, j: i32) -> Self {
        Self {
            prev_cell: Vector2Di { x: i, y: j },
            ..self.with_position(Self::center_of(i as int, j as int, self.cell_size))
        }
    }

    pub open spec fn spec_snap_to_cell(self) -> Self {
        let cell = self.spec_get_cell_position();
        self.spec_set_cell_position(cell.x, cell.y)
    }

    pub open spec fn spec_is_idle(&self) -> bool {
        match self.state {
            Some(state) => state.spec_type() == StateType::IDLE,
            None => false,
        }
    }

    pub open spec fn spec_request_state(self, request: StateRequest) -> Self {
        Self { pending_request: Some(request), ..self }
    }

    /// Whether a character that stands at `position` faces `target`. A
    /// character that stands on the target faces it.
    pub open spec fn faces_from(&self, position: Vector2D, target: Vector2D) -> bool {
        target == position || Direction::spec_toward(position, target) == self.direction
    }

    /// Whether the character, where it stands, faces `target`.
    pub open spec fn faces(&self, target: Vector2D) -> bool {
        self.faces_from(self.position(), target)
    }

    /// The character after it has entered `state` while standing at
    /// `position`. No entry moves the character.
    ///
    /// Idle plays the standing animation. Run plays the running animation
    /// and takes up the base speed. Turn stops the character; a turn to the
    /// direction already faced is over at once and asks for the idle state,
    /// any other plays the turn and faces the new direction. Walk, when the
    /// character faces the target, takes the base speed as its stride and
    /// plays the running animation; when it does not, the character first
    /// goes through the entries of the idle state and of a turn toward the
    /// target.
    pub open spec fn spec_enter_from(self, position: Vector2D, state: State) -> Self {
        match state {
            State::Idle(_) => Self {
                state: Some(state),
                ..self.with_animation(animation_name("stand"@, self.direction))
            },
            State::Run(_) => Self {
                state: Some(state),
                current_speed: self.speed,
                ..self.with_animation(animation_name("run"@, self.direction))
            },
            State::Turn(turn) => if turn.target == self.direction {
                Self {
                    state: Some(State::Turn(TurnState { can_exit: true, ..turn })),
                    current_speed: Fixed { raw: 0 },
                    pending_request: Some(StateRequest::Idle),
                    ..self
                }
            } else {
                Self {
                    state: Some(state),
                    current_speed: Fixed { raw: 0 },
                    direction: turn.target,
                    ..self.with_animation(turn_animation_name(self.direction, turn.target))
                }
            },
            State::Walk(walk) => if self.faces_from(position, walk.target) {
                Self {
                    state: Some(State::Walk(WalkState { speed: self.speed, ..walk })),
                    ..self.with_animation(animation_name("run"@, self.direction))
                }
            } else {
                let wanted = Direction::spec_toward(position, walk.target);
                Self {
                    state: Some(state),
                    current_speed: Fixed { raw: 0 },
                    direction: wanted,
                    ..self.with_animation(animation_name("stand"@, self.direction)).with_animation(
                        turn_animation_name(self.direction, wanted),
                    )
                }
            },
        }
    }

    /// The character after it has entered `state` where it stands.
    pub open spec fn spec_enter(self, state: State) -> Self {
        self.spec_enter_from(self.position(), state)
    }

    /// Whether the current state, if any, may be left.
    pub open spec fn spec_can_exit(&self) -> bool {
        match self.state {
            Some(state) => state.spec_can_exit(),
            None => true,
        }
    }

    /// Whether the current state, if any, allows a state of kind `target`.
    pub open spec fn spec_allows(&self, target: StateType) -> bool {
        match self.state {
            Some(state) => state.spec_allows(target),
            None => true,
        }
    }

    /// Whether a validated transition to serve `req` is accepted.
    pub open spec fn accepts(&self, req: StateRequest) -> bool {
        self.spec_can_exit() && self.spec_allows(StateType::spec_of_request(req))
    }

    /// The character after a forced transition made while it stands at
    /// `position`.
    pub open spec fn spec_force_transition_from(self, position: Vector2D, req: StateRequest) -> Self {
        self.spec_enter_from(position, State::spec_for_request(req))
    }

    pub open spec fn spec_force_transition(self, req: StateRequest) -> Self {
        self.spec_force_transition_from(self.position(), req)
    }

    /// The character after a validated transition tried while it stands at
    /// `position`: a request that is not accepted changes nothing.
    pub open spec fn spec_try_transition_from(self, position: Vector2D, req: StateRequest) -> Self {
        if self.accepts(req) {
            self.spec_force_transition_from(position, req)
        } else {
            self
        }
    }

    pub open spec fn spec_try_transition(self, req: StateRequest) -> Self {
        self.spec_try_transition_from(self.position(), req)
    }

    /// The character, standing at `position`, after the waiting request, if
    /// any, has been taken from the slot and tried.
    pub open spec fn spec_handle_transitions_from(self, position: Vector2D) -> Self {
        match self.pending_request {
            Some(req) => Self { pending_request: None, ..self }.spec_try_transition_from(
                position,
                req,
            ),
            None => self,
        }
    }

    pub open spec fn spec_handle_transitions(self) -> Self {
        self.spec_handle_transitions_from(self.position())
    }

    pub open spec fn spec_snapshot(&self) -> CharacterSnapshot {
        CharacterSnapshot {
            id: self.id,
            position: self.position(),
            direction: self.direction,
            velocity: self.direction.spec_to_vector().spec_mul(self.current_speed),
            is_idle: self.spec_is_idle(),
            current_speed: self.current_speed,
        }
    }

    /// The character after one command of its tree. A state change is put
    /// into the request slot; commands without effect on the character are
    /// passed over.
    pub open spec fn spec_apply(self, cmd: BTCommand) -> Self {
        match cmd {
            BTCommand::ChangeState(request) => self.spec_request_state(request),
            BTCommand::SetDirection(direction) => Self { direction, ..self },
            BTCommand::SnapToCell => self.spec_snap_to_cell(),
            _ => self,
        }
    }

    /// Where the character stands after one command of its tree: on the
    /// centre of its cell after a snap, else where it stood.
    pub open spec fn position_after_apply(&self, cmd: BTCommand) -> Vector2D {
        match cmd {
            BTCommand::SnapToCell => self.snapped_position(),
            _ => self.position(),
        }
    }

    /// The centre of the cell in which the character stands.
    pub open spec fn snapped_position(&self) -> Vector2D {
        Self::center_of(
            self.spec_get_cell_position().x as int,
            self.spec_get_cell_position().y as int,
            self.cell_size,
        )
    }

    /// The character after the first `n` of `cmds`, applied in order.
    pub open spec fn spec_apply_first(self, cmds: Seq<BTCommand>, n: nat) -> Self
        decreases n,
    {
        if n == 0 {
            self
        } else {
            self.spec_apply_first(cmds, (n - 1) as nat).spec_apply(cmds[n - 1])
        }
    }

    /// Where the character stands after the first `n` of `cmds`: where the
    /// last snap among them put it, or where it stood.
    pub open spec fn position_after_first(self, cmds: Seq<BTCommand>, n: nat) -> Vector2D
        decreases n,
    {
        if n == 0 {
            self.position()
        } else {
            match cmds[n - 1] {
                BTCommand::SnapToCell => self.spec_apply_first(
                    cmds,
                    (n - 1) as nat,
                ).snapped_position(),
                _ => self.position_after_first(cmds, (n - 1) as nat),
            }
        }
    }

    /// The character after the commands fetched for it, if any.
    pub open spec fn spec_apply_fetched(self, fetched: Option<BTResult>) -> Self {
        match fetched {
            Some(result) => self.spec_apply_first(result.commands@, result.commands@.len()),
            None => self,
        }
    }

    /// Where the character stands after the commands fetched for it.
    pub open spec fn position_after_fetched(self, fetched: Option<BTResult>) -> Vector2D {
        match fetched {
            Some(result) => self.position_after_first(result.commands@, result.commands@.len()),
            None => self.position(),
        }
    }

    /// The job that asks for the character's next decisions.
    pub open spec fn spec_job(&self, delta: Fixed) -> BTJob {
        BTJob { character_id: self.id, snapshot: self.spec_snapshot(), bt: self.bt, delta }
    }

    /// The velocity at which a character that stands at `position` moves:
    /// its direction times its current speed, but on a step cell a movement
    /// east or west goes along the stair, up or down by as much as it goes
    /// sideways.
    pub open spec fn velocity_on(&self, position: Vector2D, logic_map: &LogicMap) -> Vector2D {
        let base = self.direction.spec_to_vector().spec_mul(self.current_speed);
        let speed = self.current_speed;
        if speed.raw == 0 {
            base
        } else {
            match (logic_map.spec_step_type(logic_map.spec_cell_of(position)), self.direction) {
                (StepType::Left, Direction::EAST) => Vector2D { x: speed, y: speed.spec_neg() },
                (StepType::Left, Direction::WEST) => Vector2D { x: speed.spec_neg(), y: speed },
                (StepType::Right, Direction::EAST) => Vector2D { x: speed, y: speed },
                (StepType::Right, Direction::WEST) => Vector2D {
                    x: speed.spec_neg(),
                    y: speed.spec_neg(),
                },
                _ => base,
            }
        }
    }

    /// The velocity at which the character moves from where it stands.
    pub open spec fn spec_effective_velocity(&self, logic_map: &LogicMap) -> Vector2D {
        self.velocity_on(self.position(), logic_map)
    }

    /// Where a character that stands at `position` is after it has moved
    /// for `delta` at its velocity. A character without speed stays.
    pub open spec fn moved_position(
        &self,
        position: Vector2D,
        delta: Fixed,
        logic_map: &LogicMap,
    ) -> Vector2D {
        if self.current_speed.raw != 0 {
            position.spec_add(self.velocity_on(position, logic_map).spec_mul(delta))
        } else {
            position
        }
    }

    /// The character, standing at `position`, after it has moved for
    /// `delta`.
    pub open spec fn spec_integrate_from(
        self,
        position: Vector2D,
        delta: Fixed,
        logic_map: &LogicMap,
    ) -> Self {
        if self.current_speed.raw != 0 {
            self.with_position(self.moved_position(position, delta, logic_map))
        } else {
            self
        }
    }

    pub open spec fn spec_integrate(self, delta: Fixed, logic_map: &LogicMap) -> Self {
        self.spec_integrate_from(self.position(), delta, logic_map)
    }

    /// Whether a character that has come to `position` has made an illegal
    /// move: one from its previous cell into a cell that the terrain does
    /// not let it enter from there.
    pub open spec fn bounces(&self, position: Vector2D, logic_map: &LogicMap) -> bool {
        !logic_map.spec_is_walkable_from(self.prev_cell, logic_map.spec_cell_of(position))
    }

    /// Where a character that has come to `position` stands after the check
    /// against the terrain: on the centre of its previous cell after an
    /// illegal move, else at `position`.
    pub open spec fn settled_position(&self, position: Vector2D, logic_map: &LogicMap) -> Vector2D {
        if self.bounces(position, logic_map) {
            Self::center_of(self.prev_cell.x as int, self.prev_cell.y as int, self.cell_size)
        } else {
            position
        }
    }

    /// The character, having come to `position`, after the check against
    /// the terrain: after an illegal move it is put back on the centre of
    /// its previous cell and made idle, whatever state it was in; otherwise
    /// the cell it stands in becomes its previous cell.
    pub open spec fn spec_settle_from(self, position: Vector2D, logic_map: &LogicMap) -> Self {
        if self.bounces(position, logic_map) {
            self.spec_set_cell_position(
                self.prev_cell.x,
                self.prev_cell.y,
            ).spec_force_transition_from(
                self.settled_position(position, logic_map),
                StateRequest::Idle,
            )
        } else {
            Self { prev_cell: logic_map.spec_cell_of(position), ..self }
        }
    }

    pub open spec fn spec_settle(self, logic_map: &LogicMap) -> Self {
        self.spec_settle_from(self.position(), logic_map)
    }

    /// Where a character that stands at `position` is after its state has
    /// been advanced by `delta`: a walk moves it toward its target without
    /// overshooting, no other state moves it.
    pub open spec fn updated_position(&self, position: Vector2D, delta: Fixed) -> Vector2D {
        match self.state {
            Some(State::Walk(walk)) => position.spec_move_toward(
                walk.target,
                walk.speed.spec_mul(delta),
            ),
            _ => position,
        }
    }

    /// The character, standing at `position`, after its state has been
    /// advanced by `delta`. A turn is over when no animation plays any more.
    /// A walk is over when the target is reached. A state that is over can
    /// be left, and asks for the idle state.
    pub open spec fn spec_update_from(self, position: Vector2D, delta: Fixed) -> Self {
        match self.state {
            Some(State::Turn(turn)) => if !self.animator.playing() {
                Self {
                    state: Some(State::Turn(TurnState { can_exit: true, ..turn })),
                    pending_request: Some(StateRequest::Idle),
                    ..self
                }
            } else {
                self
            },
            Some(State::Walk(walk)) => {
                let reached = self.updated_position(position, delta);
                let moved = self.with_position(reached);
                if reached.spec_approx_eq(walk.target) {
                    Self {
                        state: Some(State::Walk(WalkState { can_exit: true, ..walk })),
                        pending_request: Some(StateRequest::Idle),
                        ..moved
                    }
                } else {
                    moved
                }
            },
            _ => self,
        }
    }

    pub open spec fn spec_update(self, delta: Fixed) -> Self {
        self.spec_update_from(self.position(), delta)
    }

    /// The character as it is ready to move in a tick: the fetched commands
    /// are applied and the waiting request is tried.
    pub open spec fn spec_ready(self, fetched: Option<BTResult>) -> Self {
        self.spec_apply_fetched(fetched).spec_handle_transitions_from(
            self.position_after_fetched(fetched),
        )
    }

    /// Where the character has come to in a tick before its position is
    /// checked against the terrain.
    pub open spec fn position_before_settling(
        self,
        delta: Fixed,
        logic_map: &LogicMap,
        fetched: Option<BTResult>,
    ) -> Vector2D {
        self.spec_ready(fetched).moved_position(
            self.position_after_fetched(fetched),
            delta,
            logic_map,
        )
    }

    /// The character after its position has been checked against the
    /// terrain in a tick.
    pub open spec fn spec_settled(
        self,
        delta: Fixed,
        logic_map: &LogicMap,
        fetched: Option<BTResult>,
    ) -> Self {
        self.spec_ready(fetched).spec_integrate_from(
            self.position_after_fetched(fetched),
            delta,
            logic_map,
        ).spec_settle_from(self.position_before_settling(delta, logic_map, fetched), logic_map)
    }

    /// Where the character stands in a tick after its position has been
    /// checked against the terrain.
    pub open spec fn position_after_settling(
        self,
        delta: Fixed,
        logic_map: &LogicMap,
        fetched: Option<BTResult>,
    ) -> Vector2D {
        self.spec_ready(fetched).settled_position(
            self.position_before_settling(delta, logic_map, fetched),
            logic_map,
        )
    }

    /// The character after one tick: the fetched commands are applied, the
    /// waiting request is tried, the character moves, its position is
    /// checked against the terrain, its state is advanced, and at last its
    /// animation.
    pub open spec fn spec_process(
        self,
        delta: Fixed,
        logic_map: &LogicMap,
        fetched: Option<BTResult>,
    ) -> Self {
        let updated = self.spec_settled(delta, logic_map, fetched).spec_update_from(
            self.position_after_settling(delta, logic_map, fetched),
            delta,
        );
        Self { animator: updated.animator.after_process(delta), ..updated }
    }

    /// Where the character stands after one tick.
    pub open spec fn position_after_process(
        self,
        delta: Fixed,
        logic_map: &LogicMap,
        fetched: Option<BTResult>,
    ) -> Vector2D {
        self.spec_settled(delta, logic_map, fetched).updated_position(
            self.position_after_settling(delta, logic_map, fetched),
            delta,
        )
    }

    /// A move that the terrain does not allow is undone: whatever state the
    /// character was in and whatever its sink does, the tick leaves it idle
    /// on the centre of the cell it came from, and that cell stays its
    /// previous cell.
    pub proof fn lemma_illegal_move_is_undone(
        self,
        delta: Fixed,
        logic_map: &LogicMap,
        fetched: Option<BTResult>,
    )
        requires
            self.spec_ready(fetched).bounces(
                self.position_before_settling(delta, logic_map, fetched),
                logic_map,
            ),
        ensures
            ({
                let from = self.spec_ready(fetched).prev_cell;
                let after = self.spec_process(delta, logic_map, fetched);
                &&& after.spec_is_idle()
                &&& after.prev_cell == from
                &&& self.position_after_process(delta, logic_map, fetched) == Self::center_of(
                    from.x as int,
                    from.y as int,
                    self.spec_ready(fetched).cell_size,
                )
            }),
    {
    }

    /// A move that the terrain allows stands: the cell that the character
    /// has come to becomes its previous cell, and its state is the one it
    /// was ready to move in, advanced by the tick.
    pub proof fn lemma_legal_move_stands(
        self,
        delta: Fixed,
        logic_map: &LogicMap,
        fetched: Option<BTResult>,
    )
        requires
            !self.spec_ready(fetched).bounces(
                self.position_before_settling(delta, logic_map, fetched),
                logic_map,
            ),
        ensures
            ({
                let reached = self.position_before_settling(delta, logic_map, fetched);
                let after = self.spec_process(delta, logic_map, fetched);
                &&& after.prev_cell == logic_map.spec_cell_of(reached)
                &&& self.position_after_settling(delta, logic_map, fetched) == reached
                &&& after.spec_is_idle() == self.spec_ready(fetched).spec_is_idle()
            }),
    {
    }

    /// A character that faces south, stands still, is in no state yet and
    /// has a request for the idle state waiting.
    pub fn new(id: CharacterId, animator: A) -> (r: Self)
        ensures
            r.valid(),
            r.id == id,
            r.animator == animator,
            r.direction == Direction::SOUTH,
            r.speed.raw == DEFAULT_SPEED,
            r.current_speed.raw == 0,
            r.state is None,
            r.pending_request == Some(StateRequest::Idle),
            r.cell_size.raw == DEFAULT_CELL_SIZE,
            r.prev_cell == (Vector2Di { x: 0, y: 0 }),
    {
        Self {
            id,
            direction: Direction::SOUTH,
            speed: Fixed { raw: DEFAULT_SPEED },
            current_speed: Fixed { raw: 0 },
            state: None,
            pending_request: Some(StateRequest::Idle),
            animator,
            cell_size: Fixed { raw: DEFAULT_CELL_SIZE },
            bt: Arc::new(BehaviourTree::default()),
            prev_cell: Vector2Di { x: 0, y: 0 },
        }
    }

    /// A character like a new one, for a grid of cells of the given size.
    pub fn with_cell_size(id: CharacterId, animator: A, cell_size: Fixed) -> (r: Self)
        requires
            cell_size.raw > 0,
        ensures
            r.valid(),
            r.id == id,
            r.animator == animator,
            r.direction == Direction::SOUTH,
            r.speed.raw == DEFAULT_SPEED,
            r.current_speed.raw == 0,
            r.state is None,
            r.pending_request == Some(StateRequest::Idle),
            r.cell_size == cell_size,
            r.prev_cell == (Vector2Di { x: 0, y: 0 }),
    {
        let mut character = Self::new(id, animator);
        character.cell_size = cell_size;
        character
    }

    /// Puts the character on the centre of the cell it stands in.
    pub fn snap_to_cell(&mut self)
        requires
            old(self).valid(),
        ensures
            *final(self) == old(self).spec_snap_to_cell(),
            final(self).position() == old(self).snapped_position(),
    {
        let coord = self.get_cell_position();
        self.set_cell_position(coord.x, coord.y);
    }

    pub fn get_position(&self) -> (r: Vector2D)
        ensures
            r == self.position(),
    {
        self.animator.get_position()
    }

    pub fn set_position(&mut self, position: Vector2D)
        ensures
            *final(self) == old(self).with_position(position),
            final(self).position() == position,
    {
        self.animator.set_position(position);
    }

    /// Puts the character on the centre of cell `(i, j)` and makes that cell
    /// its previous cell.
    pub fn set_cell_position(&mut self, i: i32, j: i32) -> (r: Vector2Di)
        requires
            old(self).valid(),
        ensures
            *final(self) == old(self).spec_set_cell_position(i, j),
            final(self).position() == Self::center_of(i as int, j as int, old(self).cell_size),
            r == (Vector2Di { x: i, y: j }),
    {
        let size: i128 = self.cell_size.raw as i128;
        let half: i128 = self.cell_size.raw as i128 / 2;
        assert(-0x4000_0000_0000_0000 <= i * size <= 0x4000_0000_0000_0000) by (nonlinear_arith)
            requires
                -0x8000_0000 <= i <= 0x8000_0000,
                -0x8000_0000 <= size <= 0x8000_0000,
        ;
        assert(-0x4000_0000_0000_0000 <= j * size <= 0x4000_0000_0000_0000) by (nonlinear_arith)
            requires
                -0x8000_0000 <= j <= 0x8000_0000,
                -0x8000_0000 <= size <= 0x8000_0000,
        ;
        let center = Vector2D {
            x: Fixed { raw: saturate(i as i128 * size + half) },
            y: Fixed { raw: saturate(j as i128 * size + half) },
        };
        self.set_position(center);
        let position = Vector2Di { x: i, y: j };
        self.prev_cell = position;
        position
    }

    /// The cell in which the character stands, by its position in the scene.
    pub fn get_cell_position(&self) -> (r: Vector2Di)
        requires
            self.valid(),
        ensures
            r == self.spec_get_cell_position(),
    {
        let position = self.animator.get_global_position();
        Vector2Di {
            x: floor_div(position.x.raw, self.cell_size.raw),
            y: floor_div(position.y.raw, self.cell_size.raw),
        }
    }

    pub fn set_cell_size(&mut self, size: Fixed)
        requires
            size.raw > 0,
        ensures
            *final(self) == (Self { cell_size: size, ..*old(self) }),
            final(self).valid(),
    {
        self.cell_size = size;
    }

    /// Whether the character is in the idle state.
    pub fn is_idle(&self) -> (r: bool)
        ensures
            r == self.spec_is_idle(),
    {
        match &self.state {
            Some(state) => state.get_type() == StateType::IDLE,
            None => false,
        }
    }

    pub fn set_current_speed(&mut self, speed: Fixed)
        ensures
            *final(self) == (Self { current_speed: speed, ..*old(self) }),
    {
        self.current_speed = speed;
    }

    /// Plays the animation of `animation_name` in the direction faced.
    pub fn play_animation_with_direction(&mut self, animation_name: &str)
        ensures
            *final(self) == old(self).with_animation(
                self::animation_name(animation_name@, old(self).direction),
            ),
            final(self).position() == old(self).position(),
    {
        let mut animation = String::from_str(animation_name);
        animation.append("_");
        animation.append(self.direction.name());
        self.animator.play(animation.as_str());
    }

    pub fn play_animation(&mut self, animation_name: &str)
        ensures
            *final(self) == old(self).with_animation(animation_name@),
            final(self).position() == old(self).position(),
    {
        self.animator.play(animation_name);
    }

    pub fn is_animation_playing(&self) -> (r: bool)
        ensures
            r == self.animator.playing(),
    {
        self.animator.is_playing()
    }

    /// Puts `request` into the request slot. A request that waits there is
    /// replaced: the last writer wins.
    pub fn request_state(&mut self, request: StateRequest)
        ensures
            *final(self) == old(self).spec_request_state(request),
            final(self).position() == old(self).position(),
    {
        self.pending_request = Some(request);
    }

    fn enter(&mut self, state: State)
        ensures
            *final(self) == old(self).spec_enter(state),
            final(self).position() == old(self).position(),
    {
        match state {
            State::Idle(_) => {
                self.play_animation_with_direction("stand");
                self.state = Some(state);
            },
            State::Run(_) => {
                self.play_animation_with_direction("run");
                self.current_speed = self.speed;
                self.state = Some(state);
            },
            State::Turn(turn) => {
                self.current_speed = Fixed { raw: 0 };
                if turn.target == self.direction {
                    self.pending_request = Some(StateRequest::Idle);
                    self.state = Some(State::Turn(TurnState { target: turn.target, can_exit: true }));
                } else {
                    let mut animation = String::from_str("turn_");
                    animation.append(self.direction.name());
                    animation.append("_");
                    animation.append(turn.target.name());
                    self.animator.play(animation.as_str());
                    self.direction = turn.target;
                    self.state = Some(state);
                }
            },
            State::Walk(walk) => {
                let position = self.animator.get_position();
                let wanted = Direction::toward(position, walk.target);
                if walk.target == position || wanted == self.direction {
                    self.play_animation_with_direction("run");
                    self.state = Some(
                        State::Walk(
                            WalkState { target: walk.target, speed: self.speed, can_exit: walk.can_exit },
                        ),
                    );
                } else {
                    self.play_animation_with_direction("stand");
                    self.current_speed = Fixed { raw: 0 };
                    let mut animation = String::from_str("turn_");
                    animation.append(self.direction.name());
                    animation.append("_");
                    animation.append(wanted.name());
                    self.animator.play(animation.as_str());
                    self.direction = wanted;
                    self.state = Some(state);
                }
            },
        }
    }

    fn handle_transitions(&mut self)
        ensures
            *final(self) == old(self).spec_handle_transitions(),
            final(self).position() == old(self).position(),
    {
        let request_opt = self.pending_request;
        self.pending_request = None;
        match request_opt {
            Some(req) => {
                let _ = self.try_transition(req);
            },
            None => {},
        }
    }

    /// Serves `req` if the current state can be left and allows the kind of
    /// state asked for. Otherwise the request is dropped, the character
    /// stays as it is, and the error says which rule refused.
    pub fn try_transition(&mut self, req: StateRequest) -> (r: Result<(), String>)
        ensures
            *final(self) == old(self).spec_try_transition(req),
            final(self).position() == old(self).position(),
            r is Ok <==> old(self).accepts(req),
            r matches Err(message) ==> message@ == if !old(self).spec_can_exit() {
                locked_message()
            } else {
                refused_message(old(self).state->0.spec_type(), StateType::spec_of_request(req))
            },
    {
        let can_exit = match &self.state {
            Some(state) => state.can_exit(),
            None => true,
        };
        let target_type = StateType::of_request(&req);
        if !can_exit {
            return Err(String::from_str("Cannot exit from the current state"));
        }
        match &self.state {
            Some(old_state) => {
                if !old_state.can_transition_to(target_type) {
                    let mut message = String::from_str("Cannot make transition from ");
                    message.append(old_state.get_type().name());
                    message.append(" to ");
                    message.append(target_type.name());
                    return Err(message);
                }
            },
            None => {},
        }
        self.enter(State::for_request(req));
        Ok(())
    }

    /// Serves `req` whatever state the character is in.
    pub fn force_transition(&mut self, req: StateRequest)
        ensures
            *final(self) == old(self).spec_force_transition(req),
            final(self).position() == old(self).position(),
    {
        self.enter(State::for_request(req));
    }

    /// What the character looks like right now.
    pub fn snapshot(&self) -> (r: CharacterSnapshot)
        ensures
            r == self.spec_snapshot(),
    {
        CharacterSnapshot {
            id: self.id,
            position: self.animator.get_position(),
            direction: self.direction,
            velocity: self.direction.to_vector().mul(self.current_speed),
            is_idle: self.is_idle(),
            current_speed: self.current_speed,
        }
    }

    fn apply_ref(&mut self, cmd: &BTCommand)
        requires
            old(self).valid(),
        ensures
            *final(self) == old(self).spec_apply(*cmd),
            final(self).position() == old(self).position_after_apply(*cmd),
            final(self).valid(),
    {
        match cmd {
            BTCommand::ChangeState(state) => {
                self.request_state(*state);
            },
            BTCommand::SetDirection(direction) => {
                self.direction = *direction;
            },
            BTCommand::SnapToCell => {
                self.snap_to_cell();
            },
            _ => {},
        }
    }

    /// Applies one command of the tree.
    pub fn apply(&mut self, cmd: BTCommand)
        requires
            old(self).valid(),
        ensures
            *final(self) == old(self).spec_apply(cmd),
            final(self).position() == old(self).position_after_apply(cmd),
            final(self).valid(),
    {
        self.apply_ref(&cmd);
    }

    /// Applies the commands of one tick of the tree, in order.
    pub fn process_commands(&mut self, result: BTResult)
        requires
            old(self).valid(),
        ensures
            *final(self) == old(self).spec_apply_first(result.commands@, result.commands@.len()),
            final(self).position() == old(self).position_after_first(
                result.commands@,
                result.commands@.len(),
            ),
            final(self).valid(),
    {
        let mut i: usize = 0;
        while i < result.commands.len()
            invariant
                i <= result.commands@.len(),
                self.valid(),
                *self == old(self).spec_apply_first(result.commands@, i as nat),
                self.position() == old(self).position_after_first(result.commands@, i as nat),
            decreases result.commands@.len() - i,
        {
            self.apply_ref(&result.commands[i]);
            i += 1;
        }
    }

    /// The job that asks for the character's next decisions: its snapshot as
    /// it is now, its tree and the time passed.
    pub fn job(&self, delta: Fixed) -> (job: BTJob)
        ensures
            job == self.spec_job(delta),
    {
        BTJob { character_id: self.id, snapshot: self.snapshot(), bt: share_tree(&self.bt), delta }
    }

    /// The exchange with the dispatch pipeline, from the character's side.
    /// Returns the job to enqueue, made from the character as it is before
    /// anything else happens, and applies the commands that were fetched
    /// for the character, if there were any.
    pub fn tick_ai(&mut self, delta: Fixed, fetched: Option<BTResult>) -> (job: BTJob)
        requires
            old(self).valid(),
        ensures
            job == old(self).spec_job(delta),
            *final(self) == old(self).spec_apply_fetched(fetched),
            final(self).position() == old(self).position_after_fetched(fetched),
            final(self).valid(),
    {
        let job = self.job(delta);
        match fetched {
            Some(result) => {
                self.process_commands(result);
            },
            None => {},
        }
        job
    }

    /// The velocity at which the character moves over `logic_map`.
    pub fn get_effective_velocity(&self, logic_map: &LogicMap) -> (r: Vector2D)
        requires
            logic_map.valid(),
        ensures
            r == self.spec_effective_velocity(logic_map),
    {
        let base = self.direction.to_vector().mul(self.current_speed);
        if self.current_speed.raw == 0 {
            return base;
        }
        let cell = logic_map.get_cell_position(self.get_position());
        let step_type = logic_map.get_step_type(cell);
        let speed = self.current_speed;
        match (step_type, self.direction) {
            (StepType::Left, Direction::EAST) => Vector2D { x: speed, y: speed.neg() },
            (StepType::Left, Direction::WEST) => Vector2D { x: speed.neg(), y: speed },
            (StepType::Right, Direction::EAST) => Vector2D { x: speed, y: speed },
            (StepType::Right, Direction::WEST) => Vector2D { x: speed.neg(), y: speed.neg() },
            _ => base,
        }
    }

    fn update(&mut self, delta: Fixed)
        ensures
            *final(self) == old(self).spec_update(delta),
            final(self).position() == old(self).updated_position(old(self).position(), delta),
    {
        match self.state {
            Some(State::Turn(turn)) => {
                if !self.animator.is_playing() {
                    self.state = Some(State::Turn(TurnState { target: turn.target, can_exit: true }));
                    self.pending_request = Some(StateRequest::Idle);
                }
            },
            Some(State::Walk(walk)) => {
                let current_pos = self.animator.get_position();
                let new_pos = current_pos.move_toward(walk.target, walk.speed.mul(delta));
                self.animator.set_position(new_pos);
                if new_pos.approx_eq(&walk.target) {
                    self.state = Some(
                        State::Walk(
                            WalkState { target: walk.target, speed: walk.speed, can_exit: true },
                        ),
                    );
                    self.pending_request = Some(StateRequest::Idle);
                }
            },
            _ => {},
        }
    }

    /// One tick of the character. `fetched` holds the commands that the
    /// dispatch pipeline had ready for the character, if any. Returns the
    /// job to enqueue for the character's next decisions.
    pub fn process(&mut self, delta: Fixed, logic_map: &LogicMap, fetched: Option<BTResult>) -> (job:
        BTJob)
        requires
            old(self).valid(),
            logic_map.valid(),
        ensures
            job == old(self).spec_job(delta),
            *final(self) == old(self).spec_process(delta, logic_map, fetched),
            final(self).position() == old(self).position_after_process(delta, logic_map, fetched),
            final(self).valid(),
    {
        let job = self.tick_ai(delta, fetched);
        self.handle_transitions();
        if self.current_speed.raw != 0 {
            let velocity = self.get_effective_velocity(logic_map);
            let new_position = self.get_position().add(velocity.mul(delta));
            self.set_position(new_position);
        }
        let pos = logic_map.get_cell_position(self.get_position());
        if !logic_map.is_walkable_from(self.prev_cell, pos) {
            let _ = self.set_cell_position(self.prev_cell.x, self.prev_cell.y);
            self.force_transition(StateRequest::Idle);
        } else {
            self.prev_cell = pos;
        }
        self.update(delta);
        self.animator.process(delta);
        job
    }
}

} // verus!
