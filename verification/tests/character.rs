use game_core::animator::Animator;
use game_core::bt::blackboard::Blackboard;
use game_core::bt::command::BTCommand;
use game_core::bt::result::BTResult;
use game_core::character::character::CharacterLogic;
use game_core::character::command::CharacterCommand;
use game_core::character::request::StateRequest;
use game_core::console_animator::ConsoleAnimator;
use game_core::directions::Direction;
use game_core::fixed::Fixed;
use game_core::fsm::{IdleState, RunState, State, StateType, TurnState, WalkState};
use game_core::logic_map::{LogicCell, LogicMap, StepType};
use game_core::vector2d::Vector2D;
use game_core::vector2di::Vector2Di;

struct TestAnimator {
    position: Vector2D,
    animation: String,
    playing: bool,
    played: Vec<String>,
}

impl TestAnimator {
    fn new(position: Vector2D) -> Self {
        Self { position, animation: String::new(), playing: false, played: Vec::new() }
    }
}

impl Animator for TestAnimator {
    fn play(&mut self, name: &str) {
        self.animation = name.to_string();
        self.played.push(name.to_string());
        self.playing = true;
    }
    fn is_playing(&self) -> bool {
        self.playing
    }
    fn process(&mut self, _delta: Fixed) {}
    fn set_position(&mut self, position: Vector2D) {
        self.position = position;
    }
    fn get_position(&self) -> Vector2D {
        self.position
    }
    fn get_global_position(&self) -> Vector2D {
        self.position
    }
}

fn v(x: i32, y: i32) -> Vector2D {
    Vector2D::new(Fixed::from_int(x), Fixed::from_int(y))
}

fn tick_time() -> Fixed {
    Fixed::from_raw(16)
}

/// 6×1 map for horizontal step traversal:
/// Col:  0        1        2        3        4        5
///       flat,h=0 flat,h=0 step,h=0 step,h=1 flat,h=1 flat,h=1
fn make_test_map() -> LogicMap {
    let mut map = LogicMap::new(6, 1);
    for i in 0..6 {
        let (height, step_type) = match i {
            2 => (0, StepType::Left),
            3 => (1, StepType::Left),
            4 | 5 => (1, StepType::NoStep),
            _ => (0, StepType::NoStep),
        };
        map.set_cell(i, 0, Some(LogicCell { walkable: true, height, step_type }));
    }
    map
}

fn make_character(cell_x: i32, cell_y: i32) -> CharacterLogic<TestAnimator> {
    let cell_size = Fixed::from_int(64);
    let half = cell_size.halved();
    let pos = Vector2D {
        x: Fixed::from_int(cell_x).mul(cell_size).add(half),
        y: Fixed::from_int(cell_y).mul(cell_size).add(half),
    };
    let mut ch = CharacterLogic::new(
        (cell_x as u64) * 1000 + cell_y as u64,
        TestAnimator::new(pos),
    );
    ch.prev_cell = Vector2Di::new(cell_x, cell_y);
    ch
}

// --- effective velocity tests ---

#[test]
fn test_effective_velocity_flat_ground_east() {
    let map = make_test_map();
    let mut ch = make_character(0, 0);
    ch.direction = Direction::EAST;
    ch.current_speed = Fixed::from_int(100);
    let v = ch.get_effective_velocity(&map);
    assert_eq!(v, Vector2D::new(Fixed::from_int(100), Fixed::from_int(0)));
}

#[test]
fn test_effective_velocity_step_east() {
    let map = make_test_map();
    let mut ch = make_character(2, 0);
    ch.direction = Direction::EAST;
    ch.current_speed = Fixed::from_int(100);
    let v = ch.get_effective_velocity(&map);
    assert_eq!(v, Vector2D::new(Fixed::from_int(100), Fixed::from_int(-100)));
}

#[test]
fn test_effective_velocity_step_west() {
    let map = make_test_map();
    let mut ch = make_character(3, 0);
    ch.direction = Direction::WEST;
    ch.current_speed = Fixed::from_int(100);
    let v = ch.get_effective_velocity(&map);
    assert_eq!(v, Vector2D::new(Fixed::from_int(-100), Fixed::from_int(100)));
}

#[test]
fn test_effective_velocity_step_north() {
    let map = make_test_map();
    let mut ch = make_character(2, 0);
    ch.direction = Direction::NORTH;
    ch.current_speed = Fixed::from_int(100);
    let v = ch.get_effective_velocity(&map);
    // N/S on step tiles → no diagonal, just normal direction
    assert_eq!(v, Vector2D::new(Fixed::from_int(0), Fixed::from_int(-100)));
}

#[test]
fn effective_velocity_on_right_steps_and_at_rest() {
    let mut map = LogicMap::new(1, 1);
    map.set_cell(0, 0, Some(LogicCell { walkable: true, height: 0, step_type: StepType::Right }));
    let mut ch = make_character(0, 0);
    ch.current_speed = Fixed::from_int(100);
    ch.direction = Direction::EAST;
    assert_eq!(ch.get_effective_velocity(&map), v(100, 100));
    ch.direction = Direction::WEST;
    assert_eq!(ch.get_effective_velocity(&map), v(-100, -100));
    ch.direction = Direction::SOUTH;
    assert_eq!(ch.get_effective_velocity(&map), v(0, 100));
    ch.current_speed = Fixed::zero();
    ch.direction = Direction::EAST;
    assert_eq!(ch.get_effective_velocity(&map), v(0, 0));
}

// --- process integration tests ---

#[test]
fn test_process_step_going_up() {
    let map = make_test_map();
    let mut ch = make_character(2, 0);
    ch.direction = Direction::EAST;
    ch.current_speed = Fixed::from_int(100);
    ch.request_state(StateRequest::Run);

    let start_pos = ch.get_position();
    for _ in 0..3 {
        ch.process(tick_time(), &map, None);
    }
    let end_pos = ch.get_position();

    assert!(end_pos.x.raw > start_pos.x.raw, "X should increase going east");
    assert!(end_pos.y.raw < start_pos.y.raw, "Y should decrease going up step");
}

#[test]
fn test_process_step_going_down() {
    let map = make_test_map();
    let mut ch = make_character(3, 0);
    ch.direction = Direction::WEST;
    ch.current_speed = Fixed::from_int(100);
    ch.request_state(StateRequest::Run);

    let start_pos = ch.get_position();
    for _ in 0..3 {
        ch.process(tick_time(), &map, None);
    }
    let end_pos = ch.get_position();

    assert!(end_pos.x.raw < start_pos.x.raw, "X should decrease going west");
    assert!(end_pos.y.raw > start_pos.y.raw, "Y should increase going down step");
}

#[test]
fn test_process_flat_ground_no_y_change() {
    let map = make_test_map();
    let mut ch = make_character(0, 0);
    ch.direction = Direction::EAST;
    ch.current_speed = Fixed::from_int(100);
    ch.request_state(StateRequest::Run);

    let start_y = ch.get_position().y;
    for _ in 0..3 {
        ch.process(tick_time(), &map, None);
    }
    let end_y = ch.get_position().y;

    assert!(
        end_y.sub(start_y).abs().raw < Fixed::epsilon().raw,
        "Y should not change on flat ground"
    );
}

#[test]
fn one_tick_moves_by_velocity_times_delta() {
    let map = make_test_map();
    let mut ch = make_character(2, 0);
    ch.direction = Direction::EAST;
    ch.request_state(StateRequest::Run);
    ch.process(tick_time(), &map, None);
    assert_eq!(ch.current_speed, Fixed::from_int(100));
    assert_eq!(
        ch.get_position(),
        Vector2D::new(Fixed::from_raw(161_600), Fixed::from_raw(30_400))
    );
    assert_eq!(ch.animator.played, vec!["run_east".to_string()]);
    assert_eq!(ch.prev_cell, Vector2Di::new(2, 0));
}

#[test]
fn a_new_character_faces_south_and_waits_for_idle() {
    let ch = CharacterLogic::new(7, TestAnimator::new(v(1, 2)));
    assert_eq!(ch.id, 7);
    assert_eq!(ch.direction, Direction::SOUTH);
    assert_eq!(ch.speed, Fixed::from_int(100));
    assert_eq!(ch.current_speed, Fixed::zero());
    assert_eq!(ch.cell_size, Fixed::from_int(64));
    assert_eq!(ch.state, None);
    assert_eq!(ch.pending_request, Some(StateRequest::Idle));
    assert_eq!(ch.prev_cell, Vector2Di::new(0, 0));
    assert!(!ch.is_idle());
    assert_eq!(ch.get_position(), v(1, 2));
    assert_eq!(ch.bt.root.id(), 0);
}

#[test]
fn the_first_tick_makes_a_new_character_idle() {
    let map = make_test_map();
    let mut ch = make_character(0, 0);
    ch.process(tick_time(), &map, None);
    assert!(ch.is_idle());
    assert_eq!(ch.pending_request, None);
    assert_eq!(ch.animator.played, vec!["stand_south".to_string()]);
}

#[test]
fn the_last_request_wins() {
    let map = make_test_map();
    let mut ch = make_character(0, 0);
    ch.request_state(StateRequest::Run);
    ch.request_state(StateRequest::Turn(Direction::EAST));
    assert_eq!(ch.pending_request, Some(StateRequest::Turn(Direction::EAST)));
    ch.process(tick_time(), &map, None);
    assert_eq!(ch.state.unwrap().get_type(), StateType::TURN);
    assert_eq!(ch.direction, Direction::EAST);
}

#[test]
fn transitions_are_validated() {
    let mut ch = make_character(0, 0);
    assert_eq!(ch.try_transition(StateRequest::Idle), Ok(()));
    assert!(ch.is_idle());
    assert_eq!(
        ch.try_transition(StateRequest::Idle),
        Err("Cannot make transition from IDLE to IDLE".to_string())
    );
    assert_eq!(ch.try_transition(StateRequest::Run), Ok(()));
    assert_eq!(ch.current_speed, Fixed::from_int(100));
    assert_eq!(
        ch.try_transition(StateRequest::Turn(Direction::EAST)),
        Err("Cannot make transition from RUN to TURN".to_string())
    );
    assert_eq!(
        ch.try_transition(StateRequest::WalkTo(v(0, 0))),
        Err("Cannot make transition from RUN to RUN".to_string())
    );
    assert_eq!(ch.state, Some(State::Run(RunState::new())));
    assert_eq!(ch.try_transition(StateRequest::Idle), Ok(()));
    assert_eq!(ch.try_transition(StateRequest::Turn(Direction::EAST)), Ok(()));
    assert_eq!(ch.current_speed, Fixed::zero());
    assert_eq!(ch.direction, Direction::EAST);
    // A turn cannot be left before it is over.
    assert_eq!(
        ch.try_transition(StateRequest::Idle),
        Err("Cannot exit from the current state".to_string())
    );
    assert_eq!(
        ch.state,
        Some(State::Turn(TurnState { target: Direction::EAST, can_exit: false }))
    );
    assert_eq!(
        ch.animator.played,
        vec![
            "stand_south".to_string(),
            "run_south".to_string(),
            "stand_south".to_string(),
            "turn_south_east".to_string(),
        ]
    );
}

#[test]
fn a_forced_transition_ignores_the_rules() {
    let mut ch = make_character(0, 0);
    ch.try_transition(StateRequest::Idle).unwrap();
    ch.try_transition(StateRequest::Turn(Direction::WEST)).unwrap();
    ch.force_transition(StateRequest::Idle);
    assert!(ch.is_idle());
    assert_eq!(ch.state, Some(State::Idle(IdleState::new())));
    ch.force_transition(StateRequest::Idle);
    assert!(ch.is_idle());
}

#[test]
fn a_turn_to_the_direction_faced_is_over_at_once() {
    let mut ch = make_character(0, 0);
    ch.try_transition(StateRequest::Idle).unwrap();
    ch.pending_request = None;
    ch.try_transition(StateRequest::Turn(Direction::SOUTH)).unwrap();
    assert_eq!(
        ch.state,
        Some(State::Turn(TurnState { target: Direction::SOUTH, can_exit: true }))
    );
    assert_eq!(ch.pending_request, Some(StateRequest::Idle));
    assert_eq!(ch.animator.played, vec!["stand_south".to_string()]);
}

#[test]
fn a_turn_ends_when_its_animation_ends() {
    let map = make_test_map();
    let mut ch = make_character(0, 0);
    ch.try_transition(StateRequest::Idle).unwrap();
    ch.pending_request = None;
    ch.try_transition(StateRequest::Turn(Direction::EAST)).unwrap();
    ch.process(tick_time(), &map, None);
    assert_eq!(ch.pending_request, None);
    ch.animator.playing = false;
    ch.process(tick_time(), &map, None);
    assert_eq!(ch.pending_request, Some(StateRequest::Idle));
    ch.process(tick_time(), &map, None);
    assert!(ch.is_idle());
}

#[test]
fn a_walk_reaches_its_target_and_asks_for_idle() {
    let map = make_test_map();
    let mut ch = make_character(0, 0);
    ch.direction = Direction::EAST;
    ch.try_transition(StateRequest::Idle).unwrap();
    ch.pending_request = None;
    let target = v(35, 32);
    ch.try_transition(StateRequest::WalkTo(target)).unwrap();
    assert_eq!(
        ch.state,
        Some(State::Walk(WalkState { target, speed: Fixed::from_int(100), can_exit: false }))
    );
    assert_eq!(ch.state.unwrap().get_type(), StateType::RUN);
    ch.process(tick_time(), &map, None);
    assert_eq!(ch.get_position(), Vector2D::new(Fixed::from_raw(33_600), Fixed::from_int(32)));
    assert_eq!(ch.pending_request, None);
    ch.process(tick_time(), &map, None);
    assert_eq!(ch.get_position(), target);
    assert_eq!(ch.pending_request, Some(StateRequest::Idle));
    ch.process(tick_time(), &map, None);
    assert!(ch.is_idle());
    assert_eq!(ch.get_position(), target);
}

#[test]
fn a_walk_away_from_the_facing_turns_first() {
    let mut ch = make_character(1, 0);
    ch.try_transition(StateRequest::Idle).unwrap();
    ch.current_speed = Fixed::from_int(5);
    let target = v(0, 32);
    ch.try_transition(StateRequest::WalkTo(target)).unwrap();
    assert_eq!(ch.direction, Direction::WEST);
    assert_eq!(ch.current_speed, Fixed::zero());
    assert_eq!(ch.state, Some(State::Walk(WalkState::new(target))));
    assert_eq!(
        ch.animator.played,
        vec![
            "stand_south".to_string(),
            "stand_south".to_string(),
            "turn_south_west".to_string(),
        ]
    );
}

#[test]
fn an_illegal_move_puts_the_character_back() {
    let mut map = make_test_map();
    map.set_cell(1, 0, Some(LogicCell { walkable: false, height: 0, step_type: StepType::NoStep }));
    let mut ch = make_character(0, 0);
    ch.direction = Direction::EAST;
    ch.try_transition(StateRequest::Idle).unwrap();
    ch.pending_request = Some(StateRequest::Run);
    ch.set_position(Vector2D::new(Fixed::from_raw(63_000), Fixed::from_int(32)));
    ch.process(tick_time(), &map, None);
    // 63.0 + 1.6 lies in the blocked cell (1, 0).
    assert_eq!(ch.get_position(), v(32, 32));
    assert!(ch.is_idle());
    assert_eq!(ch.prev_cell, Vector2Di::new(0, 0));
}

#[test]
fn commands_of_the_tree_are_applied_in_order() {
    let mut ch = make_character(0, 0);
    ch.set_position(v(70, 130));
    ch.apply(BTCommand::SetDirection(Direction::NORTH));
    assert_eq!(ch.direction, Direction::NORTH);
    ch.apply(BTCommand::SnapToCell);
    assert_eq!(ch.get_position(), v(96, 160));
    assert_eq!(ch.prev_cell, Vector2Di::new(1, 2));
    ch.apply(BTCommand::PlayAnimation("wave".to_string()));
    ch.apply(BTCommand::MoveToward(v(0, 0)));
    ch.apply(BTCommand::Custom("x".to_string()));
    assert!(ch.animator.played.is_empty());
    assert_eq!(ch.get_position(), v(96, 160));
    ch.process_commands(BTResult {
        commands: vec![
            BTCommand::ChangeState(StateRequest::Run),
            BTCommand::ChangeState(StateRequest::Turn(Direction::WEST)),
            BTCommand::SetDirection(Direction::EAST),
        ],
    });
    assert_eq!(ch.pending_request, Some(StateRequest::Turn(Direction::WEST)));
    assert_eq!(ch.direction, Direction::EAST);
}

#[test]
fn the_job_holds_the_snapshot_taken_before_the_commands() {
    let mut ch = make_character(1, 0);
    ch.current_speed = Fixed::from_int(3);
    let fetched = BTResult { commands: vec![BTCommand::SetDirection(Direction::EAST)] };
    let job = ch.tick_ai(tick_time(), Some(fetched));
    assert_eq!(job.character_id, 1000);
    assert_eq!(job.delta, tick_time());
    assert_eq!(job.snapshot, ch_snapshot_before());
    let again = ch.job(tick_time());
    assert_eq!(again.character_id, 1000);
    assert_eq!(again.snapshot, ch.snapshot());
    assert_eq!(again.delta, tick_time());
    assert_eq!(ch.direction, Direction::EAST);
    assert_eq!(ch.snapshot().direction, Direction::EAST);
    assert_eq!(ch.snapshot().velocity, v(3, 0));
    // The job shares the character's tree.
    let mut bb = Blackboard::new();
    let (id, result) = job.run(&mut bb);
    assert_eq!(id, 1000);
    assert!(result.commands.is_empty());
    assert!(bb.has("0.timer"));
}

fn ch_snapshot_before() -> game_core::character::snapshot::CharacterSnapshot {
    game_core::character::snapshot::CharacterSnapshot {
        id: 1000,
        position: v(96, 32),
        direction: Direction::SOUTH,
        velocity: v(0, 3),
        is_idle: false,
        current_speed: Fixed::from_int(3),
    }
}

#[test]
fn cell_positions_use_the_characters_cell_size() {
    let mut ch = make_character(0, 0);
    ch.set_cell_size(Fixed::from_int(32));
    assert_eq!(ch.set_cell_position(2, 3), Vector2Di::new(2, 3));
    assert_eq!(ch.get_position(), v(80, 112));
    assert_eq!(ch.get_cell_position(), Vector2Di::new(2, 3));
    ch.set_position(v(-1, 31));
    assert_eq!(ch.get_cell_position(), Vector2Di::new(-1, 0));
    ch.snap_to_cell();
    assert_eq!(ch.get_position(), v(-16, 16));
    ch.set_current_speed(Fixed::from_int(9));
    assert_eq!(ch.current_speed, Fixed::from_int(9));
}

#[test]
fn animations_are_named_by_action_and_direction() {
    let mut ch = make_character(0, 0);
    ch.direction = Direction::WEST;
    ch.play_animation_with_direction("run");
    ch.play_animation("wave");
    assert_eq!(ch.animator.played, vec!["run_west".to_string(), "wave".to_string()]);
    assert!(ch.is_animation_playing());
}

#[test]
fn states_know_their_kind_and_what_they_allow() {
    let idle = IdleState::new();
    assert_eq!(idle.get_type(), StateType::IDLE);
    assert!(idle.can_exit());
    assert!(idle.can_transition_to(StateType::RUN));
    assert!(idle.can_transition_to(StateType::TURN));
    assert!(!idle.can_transition_to(StateType::IDLE));
    let run = RunState::new();
    assert_eq!(run.get_type(), StateType::RUN);
    assert!(run.can_exit());
    assert!(run.can_transition_to(StateType::IDLE));
    assert!(!run.can_transition_to(StateType::RUN));
    assert!(!run.can_transition_to(StateType::TURN));
    let turn = TurnState::new(Direction::EAST);
    assert_eq!(turn.get_type(), StateType::TURN);
    assert!(!turn.can_exit());
    assert!(turn.can_transition_to(StateType::IDLE));
    assert!(turn.can_transition_to(StateType::RUN));
    assert!(turn.can_transition_to(StateType::TURN));
    let walk = WalkState::new(v(1, 1));
    assert_eq!(walk.get_type(), StateType::RUN);
    assert!(!walk.can_exit());
    assert!(walk.can_transition_to(StateType::IDLE));
    assert!(!walk.can_transition_to(StateType::RUN));
    assert!(!walk.can_transition_to(StateType::TURN));
    assert_eq!(StateType::RUN.name(), "RUN");
    assert_eq!(StateType::TURN.name(), "TURN");
    assert_eq!(StateType::IDLE.name(), "IDLE");
    assert_eq!(StateType::of_request(&StateRequest::WalkTo(v(0, 0))), StateType::RUN);
    assert_eq!(State::for_request(StateRequest::Turn(Direction::WEST)).get_type(), StateType::TURN);
}

#[test]
fn the_console_animator_counts_frames() {
    let mut animator = ConsoleAnimator::new();
    assert!(!animator.is_playing());
    assert_eq!(animator.get_position(), v(0, 0));
    animator.play("turn_south_east");
    assert!(animator.is_playing());
    animator.process(tick_time());
    animator.process(tick_time());
    assert!(animator.is_playing());
    animator.process(tick_time());
    assert!(!animator.is_playing());
    animator.process(tick_time());
    assert_eq!(animator.current_frame, 3);
    animator.play("stand_north");
    assert_eq!(animator.current_frame, 0);
    animator.process(tick_time());
    assert!(animator.is_playing());
    assert_eq!(animator.current_frame, 0);
    animator.play("run_east");
    assert!(!animator.is_playing());
    animator.set_position(v(3, 4));
    assert_eq!(animator.get_position(), v(3, 4));
    assert_eq!(animator.get_global_position(), v(3, 4));
}

#[test]
fn character_commands_are_plain_values() {
    let command = CharacterCommand::ChangeState(StateRequest::Run);
    assert_eq!(command.clone(), CharacterCommand::ChangeState(StateRequest::Run));
    assert_ne!(command, CharacterCommand::SnapToCell);
    assert_ne!(
        CharacterCommand::MoveToward(v(1, 2)),
        CharacterCommand::MoveToward(v(2, 1))
    );
    assert_eq!(
        CharacterCommand::PlayAnimation("run_east".to_string()),
        CharacterCommand::PlayAnimation("run_east".to_string())
    );
    assert_ne!(
        CharacterCommand::SetDirection(Direction::EAST),
        CharacterCommand::SetDirection(Direction::WEST)
    );
}
