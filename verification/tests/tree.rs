use game_core::bt::blackboard::{make_key, Blackboard, BlackboardValue};
use game_core::bt::command::BTCommand;
use game_core::bt::leafs::{FindTarget, IsAtTarget, MoveToTarget, NextWaypoint, Wait, WalkToTarget};
use game_core::bt::nodes::{Node, Selector, Sequence};
use game_core::bt::result::BTResult;
use game_core::bt::tree::BehaviourTree;
use game_core::bt::NodeStatus;
use game_core::character::request::StateRequest;
use game_core::character::snapshot::CharacterSnapshot;
use game_core::directions::Direction;
use game_core::fixed::Fixed;
use game_core::vector2d::Vector2D;

fn v(x: i32, y: i32) -> Vector2D {
    Vector2D::new(Fixed::from_int(x), Fixed::from_int(y))
}

fn snapshot_at(position: Vector2D, direction: Direction, is_idle: bool) -> CharacterSnapshot {
    CharacterSnapshot {
        id: 1,
        position,
        direction,
        velocity: Vector2D::zero(),
        is_idle,
        current_speed: Fixed::zero(),
    }
}

fn second() -> Fixed {
    Fixed::from_int(1)
}

fn int_at(bb: &Blackboard, key: &str) -> Option<i32> {
    match bb.get(key) {
        Some(BlackboardValue::Int(v)) => Some(v),
        _ => None,
    }
}

fn cursor_at(bb: &Blackboard, key: &str) -> Option<usize> {
    match bb.get(key) {
        Some(BlackboardValue::NodeState(index)) => Some(index),
        _ => None,
    }
}

#[test]
fn blackboard_stores_and_replaces_values() {
    let mut bb = Blackboard::new();
    assert!(!bb.has("a"));
    assert_eq!(bb.get("a"), None);
    bb.set("a", BlackboardValue::Int(5));
    bb.set("b", BlackboardValue::String("x".to_string()));
    bb.set("c", BlackboardValue::NodeState(3));
    assert!(bb.has("a"));
    assert_eq!(bb.get("a"), Some(BlackboardValue::Int(5)));
    assert_eq!(bb.get("b"), Some(BlackboardValue::String("x".to_string())));
    assert_eq!(bb.get("c"), Some(BlackboardValue::NodeState(3)));
    bb.set("a", BlackboardValue::Bool(true));
    assert_eq!(bb.get("a"), Some(BlackboardValue::Bool(true)));
    assert_eq!(BlackboardValue::Float(Fixed::from_raw(3)).copied(), BlackboardValue::Float(Fixed::from_raw(3)));
    assert!(!Blackboard::default().has("a"));
}

#[test]
fn slot_keys_are_the_id_and_the_suffix() {
    assert_eq!(make_key(0, ".idx"), "0.idx");
    assert_eq!(make_key(7, ".timer"), "7.timer");
    assert_eq!(make_key(1234567890, ".nxw"), "1234567890.nxw");
    assert_eq!(make_key(usize::MAX, ""), usize::MAX.to_string());
}

#[test]
fn next_waypoint_returns_second_point_then_wraps() {
    let a = v(0, 0);
    let b = v(5, 0);
    let node = NextWaypoint::new(vec![a, b], "target_pos", Fixed::from_int(32));
    let mut bb = Blackboard::new();
    let snap = snapshot_at(v(0, 0), Direction::SOUTH, true);
    let (status, result) = node.tick(&snap, &mut bb, second());
    assert_eq!(status, NodeStatus::SUCCESS);
    assert!(result.commands.is_empty());
    // Grid coordinate times tile size, plus half a tile.
    assert_eq!(bb.get("target_pos"), Some(BlackboardValue::Vector(v(176, 16))));
    assert_eq!(int_at(&bb, "0.nxw"), Some(1));
    let (status, _) = node.tick(&snap, &mut bb, second());
    assert_eq!(status, NodeStatus::SUCCESS);
    assert_eq!(bb.get("target_pos"), Some(BlackboardValue::Vector(v(16, 16))));
    assert_eq!(int_at(&bb, "0.nxw"), Some(0));
}

#[test]
fn next_waypoint_fails_on_an_empty_route() {
    let node = NextWaypoint::new(vec![], "target_pos", Fixed::from_int(32));
    let mut bb = Blackboard::new();
    let snap = snapshot_at(v(0, 0), Direction::SOUTH, true);
    let (status, result) = node.tick(&snap, &mut bb, second());
    assert_eq!(status, NodeStatus::FAILURE);
    assert!(result.commands.is_empty());
    assert!(!bb.has("target_pos"));
    assert!(!bb.has("0.nxw"));
}

#[test]
fn next_waypoint_takes_a_bad_index_for_zero() {
    let node = NextWaypoint::new(vec![v(0, 0), v(1, 0), v(2, 0)], "t", Fixed::from_int(10));
    let snap = snapshot_at(v(0, 0), Direction::SOUTH, true);
    let mut bb = Blackboard::new();
    bb.set("0.nxw", BlackboardValue::Int(-4));
    node.tick(&snap, &mut bb, second());
    assert_eq!(int_at(&bb, "0.nxw"), Some(1));
    bb.set("0.nxw", BlackboardValue::Bool(true));
    node.tick(&snap, &mut bb, second());
    assert_eq!(int_at(&bb, "0.nxw"), Some(1));
    bb.set("0.nxw", BlackboardValue::Int(7));
    node.tick(&snap, &mut bb, second());
    assert_eq!(int_at(&bb, "0.nxw"), Some(2));
    assert_eq!(bb.get("t"), Some(BlackboardValue::Vector(v(25, 5))));
}

#[test]
fn is_at_target_succeeds_up_to_the_threshold() {
    let threshold = Fixed::from_int(16);
    let node = IsAtTarget::with_threshold("target_pos", threshold);
    let mut bb = Blackboard::new();
    bb.set("target_pos", BlackboardValue::Vector(v(100, 100)));
    // Distance exactly T.
    let on_edge = snapshot_at(v(116, 100), Direction::SOUTH, true);
    assert_eq!(node.tick(&on_edge, &mut bb, second()).0, NodeStatus::SUCCESS);
    // Distance T plus one thousandth.
    let beyond = snapshot_at(
        Vector2D::new(Fixed::from_raw(116_001), Fixed::from_int(100)),
        Direction::SOUTH,
        true,
    );
    assert_eq!(node.tick(&beyond, &mut bb, second()).0, NodeStatus::FAILURE);
    // The same along a diagonal: 9.6² + 12.8² = 16².
    let diagonal = snapshot_at(
        Vector2D::new(Fixed::from_raw(109_600), Fixed::from_raw(112_800)),
        Direction::SOUTH,
        true,
    );
    assert_eq!(node.tick(&diagonal, &mut bb, second()).0, NodeStatus::SUCCESS);
    let past_diagonal = snapshot_at(
        Vector2D::new(Fixed::from_raw(109_600), Fixed::from_raw(112_801)),
        Direction::SOUTH,
        true,
    );
    assert_eq!(node.tick(&past_diagonal, &mut bb, second()).0, NodeStatus::FAILURE);
}

#[test]
fn is_at_target_fails_without_a_target() {
    let node = IsAtTarget::new("target_pos");
    assert_eq!(node.threshold, Fixed::from_int(16));
    let mut bb = Blackboard::new();
    let snap = snapshot_at(v(0, 0), Direction::SOUTH, true);
    let (status, result) = node.tick(&snap, &mut bb, second());
    assert_eq!(status, NodeStatus::FAILURE);
    assert!(result.commands.is_empty());
    bb.set("target_pos", BlackboardValue::Int(3));
    assert_eq!(node.tick(&snap, &mut bb, second()).0, NodeStatus::FAILURE);
}

#[test]
fn move_to_target_turns_runs_and_arrives() {
    let node = MoveToTarget::new("target_pos");
    let mut bb = Blackboard::new();
    let snap = snapshot_at(v(0, 0), Direction::SOUTH, true);
    let (status, result) = node.tick(&snap, &mut bb, second());
    assert_eq!(status, NodeStatus::FAILURE);
    assert!(result.commands.is_empty());

    bb.set("target_pos", BlackboardValue::Vector(v(100, 30)));
    let (status, result) = node.tick(&snap, &mut bb, second());
    assert_eq!(status, NodeStatus::RUNNING);
    assert_eq!(
        result.commands,
        vec![BTCommand::ChangeState(StateRequest::Turn(Direction::EAST))]
    );

    let facing = snapshot_at(v(0, 0), Direction::EAST, false);
    let (status, result) = node.tick(&facing, &mut bb, second());
    assert_eq!(status, NodeStatus::RUNNING);
    assert_eq!(result.commands, vec![BTCommand::ChangeState(StateRequest::Run)]);

    // On a tie between the axes the x axis wins.
    bb.set("target_pos", BlackboardValue::Vector(v(-50, 50)));
    let (_, result) = node.tick(&snap, &mut bb, second());
    assert_eq!(
        result.commands,
        vec![BTCommand::ChangeState(StateRequest::Turn(Direction::WEST))]
    );

    // Strictly nearer than 6 units counts as arrived.
    bb.set("target_pos", BlackboardValue::Vector(Vector2D::new(Fixed::from_raw(5_999), Fixed::zero())));
    let (status, result) = node.tick(&snap, &mut bb, second());
    assert_eq!(status, NodeStatus::SUCCESS);
    assert_eq!(
        result.commands,
        vec![BTCommand::SnapToCell, BTCommand::ChangeState(StateRequest::Idle)]
    );
    bb.set("target_pos", BlackboardValue::Vector(v(6, 0)));
    assert_eq!(node.tick(&snap, &mut bb, second()).0, NodeStatus::RUNNING);
}

#[test]
fn walk_to_target_sends_an_idle_character() {
    let node = WalkToTarget::new("goal");
    let mut bb = Blackboard::new();
    let idle = snapshot_at(v(0, 0), Direction::SOUTH, true);
    assert_eq!(node.tick(&idle, &mut bb, second()).0, NodeStatus::FAILURE);
    bb.set("goal", BlackboardValue::Vector(v(10, 0)));
    let (status, result) = node.tick(&idle, &mut bb, second());
    assert_eq!(status, NodeStatus::RUNNING);
    assert_eq!(result.commands, vec![BTCommand::ChangeState(StateRequest::WalkTo(v(10, 0)))]);
    let busy = snapshot_at(v(0, 0), Direction::SOUTH, false);
    let (status, result) = node.tick(&busy, &mut bb, second());
    assert_eq!(status, NodeStatus::RUNNING);
    assert!(result.commands.is_empty());
    bb.set("goal", BlackboardValue::Vector(v(1, 0)));
    let (status, result) = node.tick(&idle, &mut bb, second());
    assert_eq!(status, NodeStatus::SUCCESS);
    assert!(result.commands.is_empty());
}

#[test]
fn wait_succeeds_once_the_delay_is_exceeded() {
    let mut node = Wait::new(Fixed::from_int(1));
    node.set_id(9);
    assert_eq!(node.id(), 9);
    let mut bb = Blackboard::new();
    let snap = snapshot_at(v(0, 0), Direction::SOUTH, true);
    let half = Fixed::from_raw(500);
    assert_eq!(node.tick(&snap, &mut bb, half).0, NodeStatus::RUNNING);
    assert_eq!(bb.get("9.timer"), Some(BlackboardValue::Float(Fixed::from_raw(500))));
    // Exactly the delay is not yet more than the delay.
    assert_eq!(node.tick(&snap, &mut bb, half).0, NodeStatus::RUNNING);
    assert_eq!(bb.get("9.timer"), Some(BlackboardValue::Float(Fixed::from_raw(1_000))));
    assert_eq!(node.tick(&snap, &mut bb, Fixed::from_raw(1)).0, NodeStatus::SUCCESS);
    assert_eq!(bb.get("9.timer"), Some(BlackboardValue::Float(Fixed::zero())));
}

#[test]
fn find_target_reports_a_fixed_position() {
    let node = FindTarget::new("seen");
    let mut bb = Blackboard::new();
    let snap = snapshot_at(v(0, 0), Direction::SOUTH, true);
    let (status, result) = node.tick(&snap, &mut bb, second());
    assert_eq!(status, NodeStatus::SUCCESS);
    assert!(result.commands.is_empty());
    assert_eq!(bb.get("seen"), Some(BlackboardValue::Vector(v(100, 200))));
}

#[test]
fn sequence_resumes_at_the_running_child() {
    let route = vec![v(0, 0), v(1, 0), v(2, 0)];
    let tree = BehaviourTree::new(Node::Sequence(Sequence::new(vec![
        Node::NextWaypoint(NextWaypoint::new(route, "target_pos", Fixed::from_int(32))),
        Node::Wait(Wait::new(Fixed::from_int(1))),
        Node::FindTarget(FindTarget::new("seen")),
    ])));
    let mut bb = Blackboard::new();
    let snap = snapshot_at(v(0, 0), Direction::SOUTH, true);
    let delta = Fixed::from_raw(600);

    // Child 0 succeeds, child 1 keeps running.
    assert_eq!(tree.root.tick(&snap, &mut bb, delta).0, NodeStatus::RUNNING);
    assert_eq!(cursor_at(&bb, "1.idx"), Some(1));
    assert_eq!(int_at(&bb, "2.nxw"), Some(1));
    assert!(!bb.has("seen"));

    // The next tick starts at child 1: the waypoint does not advance.
    assert_eq!(tree.root.tick(&snap, &mut bb, delta).0, NodeStatus::SUCCESS);
    assert_eq!(cursor_at(&bb, "1.idx"), Some(0));
    assert_eq!(int_at(&bb, "2.nxw"), Some(1));
    assert!(bb.has("seen"));

    // Back at 0, the sequence starts over.
    assert_eq!(tree.root.tick(&snap, &mut bb, delta).0, NodeStatus::RUNNING);
    assert_eq!(int_at(&bb, "2.nxw"), Some(2));
}

#[test]
fn sequence_fails_with_its_child_and_resets() {
    let node = Node::Sequence(Sequence::new(vec![
        Node::FindTarget(FindTarget::new("seen")),
        Node::IsAtTarget(IsAtTarget::new("nowhere")),
        Node::FindTarget(FindTarget::new("unreached")),
    ]));
    let mut bb = Blackboard::new();
    bb.set("0.idx", BlackboardValue::NodeState(0));
    let snap = snapshot_at(v(0, 0), Direction::SOUTH, true);
    assert_eq!(node.tick(&snap, &mut bb, second()).0, NodeStatus::FAILURE);
    assert_eq!(cursor_at(&bb, "0.idx"), Some(0));
    assert!(bb.has("seen"));
    assert!(!bb.has("unreached"));
}

#[test]
fn sequence_without_children_succeeds() {
    let node = Sequence::new(vec![]);
    let mut bb = Blackboard::new();
    let snap = snapshot_at(v(0, 0), Direction::SOUTH, true);
    let (status, result) = node.tick(&snap, &mut bb, second());
    assert_eq!(status, NodeStatus::SUCCESS);
    assert!(result.commands.is_empty());
    assert_eq!(cursor_at(&bb, "0.idx"), Some(0));
}

#[test]
fn selector_resets_its_cursor_on_failure_and_on_success() {
    let mut selector = Selector::new(vec![
        Node::IsAtTarget(IsAtTarget::new("a")),
        Node::IsAtTarget(IsAtTarget::new("b")),
        Node::FindTarget(FindTarget::new("unreached")),
    ]);
    selector.id = 4;
    let snap = snapshot_at(v(0, 0), Direction::SOUTH, true);

    // The second child succeeds: success at once, the third is not ticked.
    let mut bb = Blackboard::new();
    bb.set("b", BlackboardValue::Vector(v(0, 0)));
    assert_eq!(selector.tick(&snap, &mut bb, second()).0, NodeStatus::SUCCESS);
    assert_eq!(cursor_at(&bb, "4.idx"), Some(0));
    assert!(!bb.has("unreached"));

    // All children fail.
    let failing = Selector::new(vec![
        Node::IsAtTarget(IsAtTarget::new("a")),
        Node::IsAtTarget(IsAtTarget::new("b")),
    ]);
    let mut bb = Blackboard::new();
    bb.set("0.idx", BlackboardValue::NodeState(1));
    assert_eq!(failing.tick(&snap, &mut bb, second()).0, NodeStatus::FAILURE);
    assert_eq!(cursor_at(&bb, "0.idx"), Some(0));
}

#[test]
fn selector_stays_on_a_running_child() {
    let selector = Selector::new(vec![
        Node::IsAtTarget(IsAtTarget::new("a")),
        Node::MoveToTarget(MoveToTarget::new("b")),
    ]);
    let snap = snapshot_at(v(0, 0), Direction::EAST, true);
    let mut bb = Blackboard::new();
    bb.set("b", BlackboardValue::Vector(v(50, 0)));
    let (status, result) = selector.tick(&snap, &mut bb, second());
    assert_eq!(status, NodeStatus::RUNNING);
    assert_eq!(cursor_at(&bb, "0.idx"), Some(1));
    assert_eq!(result.commands, vec![BTCommand::ChangeState(StateRequest::Run)]);
}

#[test]
fn a_cursor_past_the_children_ends_the_tick() {
    let sequence = Sequence::new(vec![Node::FindTarget(FindTarget::new("seen"))]);
    let snap = snapshot_at(v(0, 0), Direction::SOUTH, true);
    let mut bb = Blackboard::new();
    bb.set("0.idx", BlackboardValue::NodeState(5));
    assert_eq!(sequence.tick(&snap, &mut bb, second()).0, NodeStatus::SUCCESS);
    assert!(!bb.has("seen"));
    assert_eq!(cursor_at(&bb, "0.idx"), Some(0));
    bb.set("0.idx", BlackboardValue::NodeState(usize::MAX));
    assert_eq!(sequence.tick(&snap, &mut bb, second()).0, NodeStatus::SUCCESS);
    assert!(!bb.has("seen"));
    // A value of another kind under the key counts as no cursor.
    bb.set("0.idx", BlackboardValue::Int(1));
    assert_eq!(sequence.tick(&snap, &mut bb, second()).0, NodeStatus::SUCCESS);
    assert!(bb.has("seen"));
}

#[test]
fn composites_return_the_commands_of_all_ticked_children() {
    let node = Sequence::new(vec![
        Node::MoveToTarget(MoveToTarget::new("near")),
        Node::MoveToTarget(MoveToTarget::new("far")),
    ]);
    let snap = snapshot_at(v(0, 0), Direction::EAST, true);
    let mut bb = Blackboard::new();
    bb.set("near", BlackboardValue::Vector(v(1, 0)));
    bb.set("far", BlackboardValue::Vector(v(90, 0)));
    let (status, result) = node.tick(&snap, &mut bb, second());
    assert_eq!(status, NodeStatus::RUNNING);
    assert_eq!(
        result.commands,
        vec![
            BTCommand::SnapToCell,
            BTCommand::ChangeState(StateRequest::Idle),
            BTCommand::ChangeState(StateRequest::Run),
        ]
    );
}

#[test]
fn ids_are_assigned_in_pre_order_from_one() {
    let tree = BehaviourTree::new(Node::Selector(Selector::new(vec![
        Node::Sequence(Sequence::new(vec![
            Node::IsAtTarget(IsAtTarget::new("target_pos")),
            Node::Wait(Wait::new(Fixed::from_raw(800))),
            Node::NextWaypoint(NextWaypoint::new(vec![v(0, 0)], "target_pos", Fixed::from_int(32))),
        ])),
        Node::MoveToTarget(MoveToTarget::new("target_pos")),
        Node::WalkToTarget(WalkToTarget::new("target_pos")),
    ])));
    assert_eq!(tree.root.id(), 1);
    let children = match &tree.root {
        Node::Selector(s) => &s.children,
        _ => panic!("the root is a selector"),
    };
    assert_eq!(children.len(), 3);
    assert_eq!(children[0].id(), 2);
    assert_eq!(children[1].id(), 6);
    assert_eq!(children[2].id(), 7);
    match &children[0] {
        Node::Sequence(s) => {
            assert_eq!(s.children[0].id(), 3);
            assert_eq!(s.children[1].id(), 4);
            assert_eq!(s.children[2].id(), 5);
            match &s.children[1] {
                Node::Wait(w) => assert_eq!(w.delay, Fixed::from_raw(800)),
                _ => panic!("the second child waits"),
            }
        }
        _ => panic!("the first child is a sequence"),
    }
}

#[test]
fn the_default_tree_waits_and_is_not_numbered() {
    let tree = BehaviourTree::default();
    assert_eq!(tree.root.id(), 0);
    let mut bb = Blackboard::new();
    let snap = snapshot_at(v(0, 0), Direction::SOUTH, true);
    let result: BTResult = tree.tick(&snap, &mut bb, Fixed::from_raw(600));
    assert!(result.commands.is_empty());
    assert_eq!(bb.get("0.timer"), Some(BlackboardValue::Float(Fixed::from_raw(600))));
    assert_eq!(cursor_at(&bb, "0.idx"), Some(0));
    let empty = BTResult::empty();
    assert!(empty.commands.is_empty());
}

#[test]
fn one_tree_serves_characters_with_blackboards_of_their_own() {
    let tree = BehaviourTree::new(Node::Sequence(Sequence::new(vec![
        Node::Wait(Wait::new(Fixed::from_int(1))),
        Node::FindTarget(FindTarget::new("seen")),
    ])));
    let snap = snapshot_at(v(0, 0), Direction::SOUTH, true);
    let mut first = Blackboard::new();
    let mut second_board = Blackboard::new();
    tree.tick(&snap, &mut first, Fixed::from_raw(700));
    tree.tick(&snap, &mut first, Fixed::from_raw(700));
    tree.tick(&snap, &mut second_board, Fixed::from_raw(700));
    assert!(first.has("seen"));
    assert!(!second_board.has("seen"));
    assert_eq!(second_board.get("2.timer"), Some(BlackboardValue::Float(Fixed::from_raw(700))));
}
