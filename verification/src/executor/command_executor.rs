//! The executor of scripted commands.

use vstd::prelude::*;
use std::collections::VecDeque;
use crate::animator::Animator;
use crate::api::commands::ExecutionPlayerCommand;
use crate::character::character::CharacterLogic;
use crate::character::request::StateRequest;
use crate::directions::Direction;
use crate::executor::ExecutorResult;
use crate::fixed::{clamp_i32, saturate, Fixed};
use crate::logic_map::LogicMap;
use crate::vector2d::Vector2D;
use crate::vector2di::Vector2Di;

verus! {

/// A queue of commands and the command that was dispatched last. A command
/// leaves the queue when the character has been sent on its way; the next
/// one is looked at when the character is idle again.
pub struct CommandExecutor {
    pub commands: VecDeque<ExecutionPlayerCommand>,
    pub current: Option<ExecutionPlayerCommand>,
}

/// What a tick of the executor decides.
pub enum Dispatch {
    /// The character is not idle: nothing is done.
    Busy,
    /// The character is idle and the queue is empty: nothing is done.
    Nothing,
    /// The character faces another way than the next command moves: it is
    /// asked to turn.
    Turn(ExecutionPlayerCommand, Direction),
    /// The character faces the way of the next command: it is sent walking
    /// to the centre of the neighbouring cell.
    Step(ExecutionPlayerCommand, Vector2D),
}

/// The neighbour of `cell` in `direction`, saturated at the ends of the
/// coordinate range.
pub open spec fn neighbour(cell: Vector2Di, direction: Direction) -> Vector2Di {
    Vector2Di {
        x: clamp_i32(cell.x + direction.unit_x()),
        y: clamp_i32(cell.y + direction.unit_y()),
    }
}

/// The neighbour of `cell` in `direction`.
pub fn neighbour_of(cell: Vector2Di, direction: Direction) -> (r: Vector2Di)
    ensures
        r == neighbour(cell, direction),
{
    match direction {
        Direction::NORTH => Vector2Di { x: cell.x, y: saturate(cell.y as i128 - 1) },
        Direction::SOUTH => Vector2Di { x: cell.x, y: saturate(cell.y as i128 + 1) },
        Direction::EAST => Vector2Di { x: saturate(cell.x as i128 + 1), y: cell.y },
        Direction::WEST => Vector2Di { x: saturate(cell.x as i128 - 1), y: cell.y },
    }
}

/// What a tick decides for a queue of `commands` and a `character`.
pub open spec fn decide<A: Animator>(
    commands: Seq<ExecutionPlayerCommand>,
    character: CharacterLogic<A>,
    logic_map: &LogicMap,
) -> Dispatch {
    if !character.spec_is_idle() {
        Dispatch::Busy
    } else if commands.len() == 0 {
        Dispatch::Nothing
    } else {
        let direction = commands[0].command.spec_direction()->0;
        if direction != character.direction {
            Dispatch::Turn(commands[0], direction)
        } else {
            Dispatch::Step(
                commands[0],
                logic_map.spec_center_of(neighbour(character.spec_get_cell_position(), direction)),
            )
        }
    }
}

/// The character after a tick that decided `dispatch`. Before a turn is
/// requested, a transition to the idle state is tried, so that the request
/// finds a state that allows it.
pub open spec fn character_after<A: Animator>(
    dispatch: Dispatch,
    character: CharacterLogic<A>,
) -> CharacterLogic<A> {
    match dispatch {
        Dispatch::Turn(_, direction) => character.spec_try_transition(
            StateRequest::Idle,
        ).spec_request_state(StateRequest::Turn(direction)),
        Dispatch::Step(_, destination) => character.spec_try_transition(
            StateRequest::WalkTo(destination),
        ),
        _ => character,
    }
}

/// Whether a tick that decided `dispatch` takes the first command off the
/// queue: it does when the character accepted the walk.
pub open spec fn takes_command<A: Animator>(dispatch: Dispatch, character: CharacterLogic<A>) -> bool {
    match dispatch {
        Dispatch::Step(_, destination) => character.accepts(StateRequest::WalkTo(destination)),
        _ => false,
    }
}

/// The command that counts as current after a tick that decided `dispatch`.
pub open spec fn current_after<A: Animator>(
    dispatch: Dispatch,
    character: CharacterLogic<A>,
    current: Option<ExecutionPlayerCommand>,
) -> Option<ExecutionPlayerCommand> {
    match dispatch {
        Dispatch::Turn(command, _) => Some(command),
        Dispatch::Step(command, _) => if takes_command(dispatch, character) {
            Some(command)
        } else {
            current
        },
        _ => current,
    }
}

/// What a tick that decided `dispatch` reports.
pub open spec fn result_of(dispatch: Dispatch) -> ExecutorResult {
    match dispatch {
        Dispatch::Busy => ExecutorResult::Running,
        Dispatch::Nothing => ExecutorResult::Empty,
        Dispatch::Turn(_, _) => ExecutorResult::Turn,
        Dispatch::Step(_, _) => ExecutorResult::Running,
    }
}

impl CommandExecutor {
    /// An executor without commands.
    pub fn new() -> (r: Self)
        ensures
            r.commands@ == Seq::<ExecutionPlayerCommand>::empty(),
            r.current is None,
    {
        CommandExecutor { commands: VecDeque::new(), current: None }
    }

    /// The script line of the command dispatched last, or 0 before the
    /// first dispatch.
    pub fn current_line(&self) -> (r: usize)
        ensures
            r == match self.current {
                Some(command) => command.line,
                None => 0,
            },
    {
        match self.current {
            Some(command) => command.line,
            None => 0,
        }
    }

    /// Whether the next command, if there is one, is a move. A tick for an
    /// idle character cannot dispatch a pause.
    pub open spec fn front_is_move(&self) -> bool {
        self.commands@.len() > 0 ==> self.commands@[0].command.spec_direction() is Some
    }

    /// Whether the next command, if there is one, is a move.
    pub fn next_is_move(&self) -> (r: bool)
        ensures
            r == self.front_is_move(),
    {
        if self.commands.len() > 0 {
            self.commands[0].command.get_command_direction().is_some()
        } else {
            true
        }
    }

    /// Looks at the next command once the character is idle. A character
    /// that faces another way is asked to turn, and the command stays in
    /// the queue. One that faces the right way is sent walking to the
    /// centre of the neighbouring cell, and the command leaves the queue.
    pub fn tick<A: Animator>(
        &mut self,
        _delta: Fixed,
        character: &mut CharacterLogic<A>,
        logic_map: &LogicMap,
    ) -> (r: ExecutorResult)
        requires
            old(character).spec_is_idle() ==> old(self).front_is_move(),
            old(character).valid(),
            logic_map.valid(),
        ensures
            r == result_of(decide(old(self).commands@, *old(character), logic_map)),
            *final(character) == character_after(
                decide(old(self).commands@, *old(character), logic_map),
                *old(character),
            ),
            final(character).valid(),
            final(character).position() == old(character).position(),
            final(self).commands@ == if takes_command(
                decide(old(self).commands@, *old(character), logic_map),
                *old(character),
            ) {
                old(self).commands@.drop_first()
            } else {
                old(self).commands@
            },
            final(self).current == current_after(
                decide(old(self).commands@, *old(character), logic_map),
                *old(character),
                old(self).current,
            ),
    {
        if !character.is_idle() {
            return ExecutorResult::Running;
        }
        if self.commands.len() == 0 {
            return ExecutorResult::Empty;
        }
        let exec_cmd: ExecutionPlayerCommand = self.commands[0];
        let direction = match exec_cmd.command.get_command_direction() {
            Some(direction) => direction,
            None => {
                return ExecutorResult::Running;
            },
        };
        if direction != character.direction {
            let _ = character.try_transition(StateRequest::Idle);
            character.request_state(StateRequest::Turn(direction));
            self.current = Some(exec_cmd);
            return ExecutorResult::Turn;
        }
        let cell_position = neighbour_of(character.get_cell_position(), direction);
        let position = logic_map.get_screen_position(cell_position);
        match character.try_transition(StateRequest::WalkTo(position)) {
            Ok(_) => {
                let taken = self.commands.pop_front();
                assert(self.commands@ =~= old(self).commands@.drop_first());
                self.current = taken;
            },
            Err(_) => {},
        }
        ExecutorResult::Running
    }

    /// Adds `commands` to the end of the queue.
    pub fn set_commands(&mut self, commands: Vec<ExecutionPlayerCommand>)
        ensures
            final(self).commands@ == old(self).commands@ + commands@,
            final(self).current == old(self).current,
    {
        let mut i: usize = 0;
        while i < commands.len()
            invariant
                i <= commands@.len(),
                self.current == old(self).current,
                self.commands@ == old(self).commands@ + commands@.subrange(0, i as int),
            decreases commands@.len() - i,
        {
            self.commands.push_back(commands[i]);
            i += 1;
            assert(self.commands@ =~= old(self).commands@ + commands@.subrange(0, i as int));
        }
        assert(commands@.subrange(0, commands@.len() as int) =~= commands@);
    }

    /// The command dispatched last.
    pub fn get_current_command(&self) -> (r: Option<ExecutionPlayerCommand>)
        ensures
            r == self.current,
    {
        self.current
    }
}

} // verus!
