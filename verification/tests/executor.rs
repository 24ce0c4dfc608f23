use game_core::ai::worker::{take_result, ResultTable};
use game_core::animator::Animator;
use game_core::api::commands::{ExecutionPlayerCommand, PlayerCommand};
use game_core::bt::blackboard::Blackboard;
use game_core::character::character::CharacterLogic;
use game_core::character::request::StateRequest;
use game_core::directions::Direction;
use game_core::executor::command_executor::{neighbour_of, CommandExecutor};
use game_core::executor::ExecutorResult;
use game_core::fixed::Fixed;
use game_core::logic_map::{LogicCell, LogicMap, StepType};
use game_core::vector2d::Vector2D;
use game_core::vector2di::Vector2Di;

/// A test animator that resets `playing` to false on each `process()` call,
/// so TurnState can detect animation completion and transition to Idle.
struct TestAnimator {
    position: Vector2D,
    animation: String,
    playing: bool,
}

impl TestAnimator {
    fn new(position: Vector2D) -> Self {
        Self { position, animation: String::new(), playing: false }
    }
}

impl Animator for TestAnimator {
    fn play(&mut self, name: &str) {
        self.animation = name.to_string();
        self.playing = true;
    }
    fn is_playing(&self) -> bool {
        self.playing
    }
    fn process(&mut self, _delta: Fixed) {
        // Simulate animation completing each frame so TurnState can exit
        self.playing = false;
    }
    fn set_position(&mut self, position: Vector2D) {
        self.position = position;
    }
    fn get_position(&self) -> Vector2D {
        self.position
    }
    fn get_global_position(&self) -> Vector2D {
        self.position
    }
}

/// Build a 3×3 map:
/// Row j=0: non-walkable (top row)
/// Row j=1: walkable
/// Row j=2: walkable (bottom row where character starts)
fn make_3x3_map() -> LogicMap {
    let mut map = LogicMap::new(3, 3);
    for i in 0..3usize {
        map.set_cell(i, 0, Some(LogicCell { walkable: false, height: 0, step_type: StepType::NoStep }));
        map.set_cell(i, 1, Some(LogicCell { walkable: true, height: 0, step_type: StepType::NoStep }));
        map.set_cell(i, 2, Some(LogicCell { walkable: true, height: 0, step_type: StepType::NoStep }));
    }
    map
}

fn make_character(cell_x: i32, cell_y: i32) -> CharacterLogic<TestAnimator> {
    let mut ch = CharacterLogic::new(
        (cell_x as u64) * 1000 + cell_y as u64,
        TestAnimator::new(Vector2D::new(Fixed::from_int(0), Fixed::from_int(0))),
    );
    // set_cell_position sets both the screen position and prev_cell
    ch.set_cell_position(cell_x, cell_y);
    ch
}

fn tick_time() -> Fixed {
    Fixed::from_raw(16)
}

/// One tick of the character with the pipeline run in place: the result
/// that waits is fetched, the character is processed, and its job is ticked
/// and deposited.
fn process_with_pipeline(
    character: &mut CharacterLogic<TestAnimator>,
    map: &LogicMap,
    table: &mut ResultTable,
    blackboard: &mut Blackboard,
) {
    let fetched = take_result(table, character.id);
    let job = character.process(tick_time(), map, fetched);
    let result = job.run(blackboard);
    table.merge(vec![result]);
}

/// Advance simulation: alternate executor ticks and character process ticks
/// until the character is idle and the executor command queue is empty,
/// or until the tick budget is exhausted (to prevent infinite loops in tests).
fn run_until_idle_or_budget(
    executor: &mut CommandExecutor,
    character: &mut CharacterLogic<TestAnimator>,
    map: &LogicMap,
    max_ticks: usize,
) -> Vec<Vector2Di> {
    let mut table = ResultTable::new();
    let mut blackboard = Blackboard::new();
    let mut idle_cells = Vec::new();
    for _ in 0..max_ticks {
        assert!(!character.is_idle() || executor.next_is_move());
        executor.tick(tick_time(), character, map);
        process_with_pipeline(character, map, &mut table, &mut blackboard);
        if character.is_idle() {
            idle_cells.push(character.get_cell_position());
        }
        if character.is_idle() && executor.commands.is_empty() {
            break;
        }
    }
    idle_cells
}

fn command(command: PlayerCommand, line: usize) -> ExecutionPlayerCommand {
    ExecutionPlayerCommand { command, line }
}

/// Test: character at (1,2) on a 3×3 map where row 0 is non-walkable.
/// Commands: MoveNorth, MoveNorth, MoveNorth, MoveEast.
///
/// Expected sequence:
/// 1. First MoveNorth: (1,2) → (1,1)  — succeeds
/// 2. Second MoveNorth: tries (1,0)    — non-walkable, bounces back to (1,1), Idle
/// 3. Third MoveNorth: tries (1,0)     — non-walkable, bounces back to (1,1), Idle
/// 4. MoveEast: (1,1) → (2,1)         — succeeds
///
/// Final position: cell (2,1)
#[test]
fn test_blocked_move_north_then_move_east() {
    let map = make_3x3_map();
    let mut character = make_character(1, 2);

    // Start character facing NORTH so no initial turn is needed for MoveNorth
    character.direction = Direction::NORTH;
    // Put character into Idle state so the executor will start processing
    character.try_transition(StateRequest::Idle).unwrap();

    let mut executor = CommandExecutor::new();
    executor.set_commands(vec![
        command(PlayerCommand::MoveNorth, 1),
        command(PlayerCommand::MoveNorth, 2),
        command(PlayerCommand::MoveNorth, 3),
        command(PlayerCommand::MoveEast, 4),
    ]);

    // Run with a generous tick budget (4 commands × ~80 ticks each for movement)
    run_until_idle_or_budget(&mut executor, &mut character, &map, 1000);

    let final_cell = character.get_cell_position();
    assert_eq!(
        final_cell,
        Vector2Di::new(2, 1),
        "Character should end up at cell (2,1) after blocked north moves and successful east move, got ({},{})",
        final_cell.x,
        final_cell.y,
    );
}

#[test]
fn blocked_moves_bounce_back_to_the_cell_before() {
    let map = make_3x3_map();
    let mut character = make_character(1, 2);
    character.direction = Direction::NORTH;
    character.try_transition(StateRequest::Idle).unwrap();
    let mut executor = CommandExecutor::new();
    executor.set_commands(vec![
        command(PlayerCommand::MoveNorth, 1),
        command(PlayerCommand::MoveNorth, 2),
        command(PlayerCommand::MoveNorth, 3),
        command(PlayerCommand::MoveEast, 4),
    ]);
    let idle_cells = run_until_idle_or_budget(&mut executor, &mut character, &map, 1000);
    // The character never rests in row 0, and rests in (1,1) before it goes east.
    assert!(idle_cells.iter().all(|cell| cell.y != 0));
    assert!(idle_cells.contains(&Vector2Di::new(1, 1)));
    assert_eq!(idle_cells.last(), Some(&Vector2Di::new(2, 1)));
    assert_eq!(
        character.get_position(),
        Vector2D::new(Fixed::from_int(160), Fixed::from_int(96))
    );
    assert_eq!(character.direction, Direction::EAST);
    assert_eq!(executor.current_line(), 4);
    assert_eq!(executor.get_current_command(), Some(command(PlayerCommand::MoveEast, 4)));
}

#[test]
fn the_executor_waits_for_an_idle_character() {
    let map = make_3x3_map();
    let mut character = make_character(1, 1);
    let mut executor = CommandExecutor::new();
    assert_eq!(executor.current_line(), 0);
    assert_eq!(executor.get_current_command(), None);
    executor.set_commands(vec![command(PlayerCommand::MoveSouth, 3)]);
    // No state yet: not idle.
    assert_eq!(executor.tick(tick_time(), &mut character, &map), ExecutorResult::Running);
    assert_eq!(executor.commands.len(), 1);
    assert_eq!(executor.current_line(), 0);
    character.try_transition(StateRequest::Idle).unwrap();
    // Facing south already: the walk is dispatched and the command taken.
    assert_eq!(executor.tick(tick_time(), &mut character, &map), ExecutorResult::Running);
    assert!(executor.commands.is_empty());
    assert_eq!(executor.current_line(), 3);
    assert!(!character.is_idle());
    assert_eq!(executor.tick(tick_time(), &mut character, &map), ExecutorResult::Running);
    character.force_transition(StateRequest::Idle);
    assert_eq!(executor.tick(tick_time(), &mut character, &map), ExecutorResult::Empty);
}

#[test]
fn a_busy_character_is_left_alone_whatever_waits() {
    let map = make_3x3_map();
    let mut character = make_character(1, 1);
    character.try_transition(StateRequest::Idle).unwrap();
    character.try_transition(StateRequest::Run).unwrap();
    character.pending_request = None;
    let mut executor = CommandExecutor::new();
    executor.set_commands(vec![
        command(PlayerCommand::Wait(Fixed::from_int(1)), 5),
        command(PlayerCommand::MoveEast, 6),
    ]);
    let position = character.get_position();
    assert_eq!(executor.tick(tick_time(), &mut character, &map), ExecutorResult::Running);
    assert_eq!(executor.commands.len(), 2);
    assert_eq!(executor.get_current_command(), None);
    assert_eq!(executor.current_line(), 0);
    assert_eq!(character.pending_request, None);
    assert_eq!(character.state.unwrap().get_type(), game_core::fsm::StateType::RUN);
    assert_eq!(character.get_position(), position);
}

#[test]
fn the_executor_asks_for_a_turn_first() {
    let map = make_3x3_map();
    let mut character = make_character(1, 1);
    character.try_transition(StateRequest::Idle).unwrap();
    let mut executor = CommandExecutor::new();
    executor.set_commands(vec![command(PlayerCommand::Move(Direction::WEST), 8)]);
    executor.set_commands(vec![command(PlayerCommand::MoveNorth, 9)]);
    assert_eq!(executor.tick(tick_time(), &mut character, &map), ExecutorResult::Turn);
    assert_eq!(character.pending_request, Some(StateRequest::Turn(Direction::WEST)));
    assert!(character.is_idle());
    assert_eq!(executor.commands.len(), 2);
    assert_eq!(executor.current_line(), 8);
}

#[test]
fn commands_have_directions_but_for_pauses() {
    assert_eq!(PlayerCommand::MoveNorth.get_command_direction(), Some(Direction::NORTH));
    assert_eq!(PlayerCommand::MoveSouth.get_command_direction(), Some(Direction::SOUTH));
    assert_eq!(PlayerCommand::MoveEast.get_command_direction(), Some(Direction::EAST));
    assert_eq!(PlayerCommand::MoveWest.get_command_direction(), Some(Direction::WEST));
    assert_eq!(
        PlayerCommand::Move(Direction::EAST).get_command_direction(),
        Some(Direction::EAST)
    );
    assert_eq!(PlayerCommand::Wait(Fixed::from_int(1)).get_command_direction(), None);
    let mut executor = CommandExecutor::new();
    assert!(executor.next_is_move());
    executor.set_commands(vec![command(PlayerCommand::Wait(Fixed::from_int(1)), 1)]);
    assert!(!executor.next_is_move());
}

#[test]
fn neighbours_saturate_at_the_ends_of_the_range() {
    let cell = Vector2Di::new(3, 4);
    assert_eq!(neighbour_of(cell, Direction::NORTH), Vector2Di::new(3, 3));
    assert_eq!(neighbour_of(cell, Direction::SOUTH), Vector2Di::new(3, 5));
    assert_eq!(neighbour_of(cell, Direction::EAST), Vector2Di::new(4, 4));
    assert_eq!(neighbour_of(cell, Direction::WEST), Vector2Di::new(2, 4));
    let corner = Vector2Di::new(i32::MIN, i32::MAX);
    assert_eq!(neighbour_of(corner, Direction::WEST), corner);
    assert_eq!(neighbour_of(corner, Direction::SOUTH), corner);
}
