//! The leaves of the tree. A leaf holds only its configuration; whatever it
//! remembers between ticks is in the blackboard.

use vstd::prelude::*;
use vstd::string::*;
use crate::bt::blackboard::{make_key, slot_key, Blackboard, BlackboardValue, Board, Value};
use crate::bt::command::BTCommand;
use crate::bt::result::BTResult;
use crate::bt::{lookup, outcome_of, NodeStatus, Outcome};
use crate::character::request::StateRequest;
use crate::character::snapshot::CharacterSnapshot;
use crate::directions::Direction;
use crate::fixed::{clamp_i32, saturate, Fixed};
use crate::vector2d::Vector2D;

verus! {

/// Thousandths within which `MoveToTarget` takes the target as reached.
pub const SNAP_DISTANCE: i32 = 6_000;

/// Thousandths within which `WalkToTarget` takes the target as reached.
pub const WALK_DISTANCE: i32 = 1_000;

/// The default threshold of `IsAtTarget`, in thousandths.
pub const DEFAULT_THRESHOLD: i32 = 16_000;

/// The vector stored under `key`; `None` where nothing or a value of another
/// type is stored.
pub open spec fn vector_at(board: Board, key: Seq<char>) -> Option<Vector2D> {
    match lookup(board, key) {
        Some(Value::Vector(v)) => Some(v),
        _ => None,
    }
}

fn read_vector(blackboard: &Blackboard, key: &str) -> (r: Option<Vector2D>)
    ensures
        r == vector_at(blackboard@, key@),
{
    match blackboard.get(key) {
        Some(BlackboardValue::Vector(v)) => Some(v),
        _ => None,
    }
}

/// A stand-in sensor: it always reports the target at (100, 200).
pub struct FindTarget {
    pub target_key: String,
    pub id: usize,
}

impl FindTarget {
    pub fn new(key: &str) -> (r: Self)
        ensures
            r.target_key@ == key@,
            r.id == 0,
    {
        Self { target_key: String::from_str(key), id: 0 }
    }

    pub fn set_id(&mut self, id: usize)
        ensures
            final(self).id == id,
            final(self).target_key == old(self).target_key,
    {
        self.id = id;
    }

    pub fn id(&self) -> (r: usize)
        ensures
            r == self.id,
    {
        self.id
    }

    pub fn reset(&mut self)
        ensures
            *final(self) == *old(self),
    {
    }

    /// The position that the sensor reports.
    pub open spec fn reported() -> Vector2D {
        Vector2D { x: Fixed { raw: 100_000 }, y: Fixed { raw: 200_000 } }
    }

    pub open spec fn spec_tick(&self, snapshot: CharacterSnapshot, board: Board, delta: Fixed) -> Outcome {
        Outcome {
            status: NodeStatus::SUCCESS,
            commands: Seq::empty(),
            board: board.insert(self.target_key@, Value::Vector(Self::reported())),
        }
    }

    /// Writes the reported position under the target key and succeeds.
    pub fn tick(&self, snapshot: &CharacterSnapshot, blackboard: &mut Blackboard, delta: Fixed) -> (r: (
        NodeStatus,
        BTResult,
    ))
        ensures
            outcome_of(r, final(blackboard)@) == self.spec_tick(*snapshot, old(blackboard)@, delta),
    {
        let player_position = Vector2D { x: Fixed { raw: 100_000 }, y: Fixed { raw: 200_000 } };
        blackboard.set(self.target_key.as_str(), BlackboardValue::Vector(player_position));
        (NodeStatus::SUCCESS, BTResult::empty())
    }
}

/// Steers the character toward the target by turn and run requests.
pub struct MoveToTarget {
    pub target_key: String,
    pub id: usize,
}

impl MoveToTarget {
    pub fn new(key: &str) -> (r: Self)
        ensures
            r.target_key@ == key@,
            r.id == 0,
    {
        Self { target_key: String::from_str(key), id: 0 }
    }

    pub fn set_id(&mut self, id: usize)
        ensures
            final(self).id == id,
            final(self).target_key == old(self).target_key,
    {
        self.id = id;
    }

    pub fn id(&self) -> (r: usize)
        ensures
            r == self.id,
    {
        self.id
    }

    pub fn reset(&mut self)
        ensures
            *final(self) == *old(self),
    {
    }

    /// The request that moves a character at `position`, facing
    /// `direction`, toward `target`: a turn toward the dominant axis when it
    /// faces another way, else a run.
    pub open spec fn steering(position: Vector2D, direction: Direction, target: Vector2D) -> StateRequest {
        let wanted = Direction::spec_toward(position, target);
        if direction != wanted {
            StateRequest::Turn(wanted)
        } else {
            StateRequest::Run
        }
    }

    pub open spec fn spec_tick(&self, snapshot: CharacterSnapshot, board: Board, delta: Fixed) -> Outcome {
        match vector_at(board, self.target_key@) {
            None => Outcome { status: NodeStatus::FAILURE, commands: Seq::empty(), board },
            Some(target) => if snapshot.position.spec_closer_than(target, Fixed { raw: SNAP_DISTANCE }) {
                Outcome {
                    status: NodeStatus::SUCCESS,
                    commands: seq![BTCommand::SnapToCell, BTCommand::ChangeState(StateRequest::Idle)],
                    board,
                }
            } else {
                Outcome {
                    status: NodeStatus::RUNNING,
                    commands: seq![
                        BTCommand::ChangeState(
                            Self::steering(snapshot.position, snapshot.direction, target),
                        ),
                    ],
                    board,
                }
            },
        }
    }

    /// Fails without a target. Within the snap distance of the target it
    /// asks for a snap to the cell and for the idle state, and succeeds.
    /// Otherwise it asks for a turn or a run toward the target and keeps
    /// running.
    pub fn tick(&self, snapshot: &CharacterSnapshot, blackboard: &mut Blackboard, delta: Fixed) -> (r: (
        NodeStatus,
        BTResult,
    ))
        ensures
            outcome_of(r, final(blackboard)@) == self.spec_tick(*snapshot, old(blackboard)@, delta),
    {
        let mut commands: Vec<BTCommand> = Vec::new();
        let target_pos = match read_vector(blackboard, self.target_key.as_str()) {
            Some(v) => v,
            None => {
                return (NodeStatus::FAILURE, BTResult { commands });
            },
        };
        let current_pos = snapshot.position;
        if current_pos.closer_than(target_pos, Fixed { raw: SNAP_DISTANCE }) {
            commands.push(BTCommand::SnapToCell);
            commands.push(BTCommand::ChangeState(StateRequest::Idle));
            assert(commands@ =~= seq![
                BTCommand::SnapToCell,
                BTCommand::ChangeState(StateRequest::Idle),
            ]);
            return (NodeStatus::SUCCESS, BTResult { commands });
        }
        let new_direction = Direction::toward(current_pos, target_pos);
        if snapshot.direction != new_direction {
            commands.push(BTCommand::ChangeState(StateRequest::Turn(new_direction)));
        } else {
            commands.push(BTCommand::ChangeState(StateRequest::Run));
        }
        assert(commands@ =~= seq![
            BTCommand::ChangeState(Self::steering(snapshot.position, snapshot.direction, target_pos)),
        ]);
        (NodeStatus::RUNNING, BTResult { commands })
    }
}

/// Cycles through a route and publishes the next waypoint as the target.
pub struct NextWaypoint {
    pub waypoints: Vec<Vector2D>,
    pub target_key: String,
    pub tile_size: Fixed,
    pub id: usize,
}

impl NextWaypoint {
    pub fn new(waypoints: Vec<Vector2D>, key: &str, tile_size: Fixed) -> (r: Self)
        ensures
            r.waypoints == waypoints,
            r.target_key@ == key@,
            r.tile_size == tile_size,
            r.id == 0,
    {
        Self { waypoints, target_key: String::from_str(key), tile_size, id: 0 }
    }

    pub fn set_id(&mut self, id: usize)
        ensures
            final(self).id == id,
            final(self).target_key == old(self).target_key,
            final(self).waypoints == old(self).waypoints,
            final(self).tile_size == old(self).tile_size,
    {
        self.id = id;
    }

    pub fn id(&self) -> (r: usize)
        ensures
            r == self.id,
    {
        self.id
    }

    pub fn reset(&mut self)
        ensures
            *final(self) == *old(self),
    {
    }

    /// The key of the slot that holds the index of the current waypoint.
    pub open spec fn index_key(&self) -> Seq<char> {
        slot_key(self.id as nat, ".nxw"@)
    }

    /// The index of the current waypoint: what the slot holds, or 0 where it
    /// holds no index.
    pub open spec fn current_index(&self, board: Board) -> nat {
        match lookup(board, self.index_key()) {
            Some(Value::Int(v)) => if v >= 0 {
                v as nat
            } else {
                0
            },
            _ => 0,
        }
    }

    /// The world position of a waypoint given in grid coordinates: the
    /// coordinate times the tile size, plus half a tile.
    pub open spec fn world_position(&self, waypoint: Vector2D) -> Vector2D {
        let half = self.tile_size.spec_halved();
        waypoint.spec_mul(self.tile_size).spec_add(Vector2D { x: half, y: half })
    }

    pub open spec fn spec_tick(&self, snapshot: CharacterSnapshot, board: Board, delta: Fixed) -> Outcome {
        if self.waypoints@.len() == 0 {
            Outcome { status: NodeStatus::FAILURE, commands: Seq::empty(), board }
        } else {
            let next: int = ((self.current_index(board) + 1) as int) % (self.waypoints@.len() as int);
            Outcome {
                status: NodeStatus::SUCCESS,
                commands: Seq::empty(),
                board: board.insert(
                    self.target_key@,
                    Value::Vector(self.world_position(self.waypoints@[next])),
                ).insert(self.index_key(), Value::Int(clamp_i32(next))),
            }
        }
    }

    /// Fails on an empty route. Otherwise advances the stored index by one,
    /// wrapping at the end of the route, publishes that waypoint's world
    /// position under the target key, and succeeds.
    pub fn tick(&self, snapshot: &CharacterSnapshot, blackboard: &mut Blackboard, delta: Fixed) -> (r: (
        NodeStatus,
        BTResult,
    ))
        ensures
            outcome_of(r, final(blackboard)@) == self.spec_tick(*snapshot, old(blackboard)@, delta),
    {
        let key = make_key(self.id, ".nxw");
        let result = BTResult::empty();
        if self.waypoints.len() == 0 {
            return (NodeStatus::FAILURE, result);
        }
        let stored: usize = match blackboard.get(key.as_str()) {
            Some(BlackboardValue::Int(val)) => if val >= 0 {
                val as usize
            } else {
                0
            },
            _ => 0,
        };
        let current_index: usize = (stored + 1) % self.waypoints.len();
        let half = self.tile_size.halved();
        let half_tile = Vector2D { x: half, y: half };
        let next_pos = self.waypoints[current_index].mul(self.tile_size).add(half_tile);
        blackboard.set(self.target_key.as_str(), BlackboardValue::Vector(next_pos));
        blackboard.set(key.as_str(), BlackboardValue::Int(saturate(current_index as i128)));
        (NodeStatus::SUCCESS, result)
    }
}

/// Tests whether the character stands at the target.
pub struct IsAtTarget {
    pub target_key: String,
    pub threshold: Fixed,
    pub id: usize,
}

impl IsAtTarget {
    /// A test with the default threshold of 16 units.
    pub fn new(key: &str) -> (r: Self)
        ensures
            r.target_key@ == key@,
            r.threshold.raw == DEFAULT_THRESHOLD,
            r.id == 0,
    {
        Self { target_key: String::from_str(key), threshold: Fixed { raw: DEFAULT_THRESHOLD }, id: 0 }
    }

    /// A test with a threshold of the caller's choice.
    pub fn with_threshold(key: &str, threshold: Fixed) -> (r: Self)
        ensures
            r.target_key@ == key@,
            r.threshold == threshold,
            r.id == 0,
    {
        Self { target_key: String::from_str(key), threshold, id: 0 }
    }

    pub fn set_id(&mut self, id: usize)
        ensures
            final(self).id == id,
            final(self).target_key == old(self).target_key,
            final(self).threshold == old(self).threshold,
    {
        self.id = id;
    }

    pub fn id(&self) -> (r: usize)
        ensures
            r == self.id,
    {
        self.id
    }

    pub fn reset(&mut self)
        ensures
            *final(self) == *old(self),
    {
    }

    pub open spec fn spec_tick(&self, snapshot: CharacterSnapshot, board: Board, delta: Fixed) -> Outcome {
        Outcome {
            status: match vector_at(board, self.target_key@) {
                Some(target) => if snapshot.position.spec_within(target, self.threshold) {
                    NodeStatus::SUCCESS
                } else {
                    NodeStatus::FAILURE
                },
                None => NodeStatus::FAILURE,
            },
            commands: Seq::empty(),
            board,
        }
    }

    /// Succeeds exactly when a target is set and lies at the threshold
    /// distance or nearer; the comparison is exact.
    pub fn tick(&self, snapshot: &CharacterSnapshot, blackboard: &mut Blackboard, delta: Fixed) -> (r: (
        NodeStatus,
        BTResult,
    ))
        ensures
            outcome_of(r, final(blackboard)@) == self.spec_tick(*snapshot, old(blackboard)@, delta),
    {
        let target_pos = match read_vector(blackboard, self.target_key.as_str()) {
            Some(v) => v,
            None => {
                return (NodeStatus::FAILURE, BTResult::empty());
            },
        };
        if snapshot.position.within(target_pos, self.threshold) {
            (NodeStatus::SUCCESS, BTResult::empty())
        } else {
            (NodeStatus::FAILURE, BTResult::empty())
        }
    }
}

/// Sends an idle character walking to the target.
pub struct WalkToTarget {
    pub target_key: String,
    pub id: usize,
}

impl WalkToTarget {
    pub fn new(key: &str) -> (r: Self)
        ensures
            r.target_key@ == key@,
            r.id == 0,
    {
        Self { target_key: String::from_str(key), id: 0 }
    }

    pub fn set_id(&mut self, id: usize)
        ensures
            final(self).id == id,
            final(self).target_key == old(self).target_key,
    {
        self.id = id;
    }

    pub fn id(&self) -> (r: usize)
        ensures
            r == self.id,
    {
        self.id
    }

    pub fn reset(&mut self)
        ensures
            *final(self) == *old(self),
    {
    }

    pub open spec fn spec_tick(&self, snapshot: CharacterSnapshot, board: Board, delta: Fixed) -> Outcome {
        match vector_at(board, self.target_key@) {
            None => Outcome { status: NodeStatus::FAILURE, commands: Seq::empty(), board },
            Some(target) => if !snapshot.is_idle {
                Outcome { status: NodeStatus::RUNNING, commands: Seq::empty(), board }
            } else if snapshot.position.spec_within(target, Fixed { raw: WALK_DISTANCE }) {
                Outcome { status: NodeStatus::SUCCESS, commands: Seq::empty(), board }
            } else {
                Outcome {
                    status: NodeStatus::RUNNING,
                    commands: seq![BTCommand::ChangeState(StateRequest::WalkTo(target))],
                    board,
                }
            },
        }
    }

    /// Fails without a target. A busy character keeps running. An idle one
    /// succeeds within one unit of the target, and is otherwise asked to
    /// walk there.
    pub fn tick(&self, snapshot: &CharacterSnapshot, blackboard: &mut Blackboard, delta: Fixed) -> (r: (
        NodeStatus,
        BTResult,
    ))
        ensures
            outcome_of(r, final(blackboard)@) == self.spec_tick(*snapshot, old(blackboard)@, delta),
    {
        let target_pos = match read_vector(blackboard, self.target_key.as_str()) {
            Some(v) => v,
            None => {
                return (NodeStatus::FAILURE, BTResult::empty());
            },
        };
        let mut commands: Vec<BTCommand> = Vec::new();
        if snapshot.is_idle {
            if !snapshot.position.within(target_pos, Fixed { raw: WALK_DISTANCE }) {
                commands.push(BTCommand::ChangeState(StateRequest::WalkTo(target_pos)));
                assert(commands@ =~= seq![BTCommand::ChangeState(StateRequest::WalkTo(target_pos))]);
            } else {
                return (NodeStatus::SUCCESS, BTResult { commands });
            }
        }
        (NodeStatus::RUNNING, BTResult { commands })
    }
}

/// Lets a given time pass.
pub struct Wait {
    pub delay: Fixed,
    pub id: usize,
}

impl Wait {
    pub fn new(delay: Fixed) -> (r: Self)
        ensures
            r.delay == delay,
            r.id == 0,
    {
        Self { delay, id: 0 }
    }

    pub fn set_id(&mut self, id: usize)
        ensures
            final(self).id == id,
            final(self).delay == old(self).delay,
    {
        self.id = id;
    }

    pub fn id(&self) -> (r: usize)
        ensures
            r == self.id,
    {
        self.id
    }

    pub fn reset(&mut self)
        ensures
            *final(self) == *old(self),
    {
    }

    /// The key of the slot that holds the time waited so far.
    pub open spec fn timer_key(&self) -> Seq<char> {
        slot_key(self.id as nat, ".timer"@)
    }

    /// The time waited so far: what the slot holds, or zero.
    pub open spec fn elapsed(&self, board: Board) -> Fixed {
        match lookup(board, self.timer_key()) {
            Some(Value::Float(t)) => t,
            _ => Fixed { raw: 0 },
        }
    }

    pub open spec fn spec_tick(&self, snapshot: CharacterSnapshot, board: Board, delta: Fixed) -> Outcome {
        let now = self.elapsed(board).spec_add(delta);
        if now.raw > self.delay.raw {
            Outcome {
                status: NodeStatus::SUCCESS,
                commands: Seq::empty(),
                board: board.insert(self.timer_key(), Value::Float(Fixed { raw: 0 })),
            }
        } else {
            Outcome {
                status: NodeStatus::RUNNING,
                commands: Seq::empty(),
                board: board.insert(self.timer_key(), Value::Float(now)),
            }
        }
    }

    /// Adds `delta` to the time waited. Once that exceeds the delay, the
    /// timer goes back to zero and the node succeeds; until then it keeps
    /// running.
    pub fn tick(&self, snapshot: &CharacterSnapshot, blackboard: &mut Blackboard, delta: Fixed) -> (r: (
        NodeStatus,
        BTResult,
    ))
        ensures
            outcome_of(r, final(blackboard)@) == self.spec_tick(*snapshot, old(blackboard)@, delta),
    {
        let key = make_key(self.id, ".timer");
        let stored: Fixed = match blackboard.get(key.as_str()) {
            Some(BlackboardValue::Float(val)) => val,
            _ => Fixed { raw: 0 },
        };
        let current_time = stored.add(delta);
        if current_time.raw > self.delay.raw {
            blackboard.set(key.as_str(), BlackboardValue::Float(Fixed { raw: 0 }));
            return (NodeStatus::SUCCESS, BTResult::empty());
        }
        blackboard.set(key.as_str(), BlackboardValue::Float(current_time));
        (NodeStatus::RUNNING, BTResult::empty())
    }
}

} // verus!
