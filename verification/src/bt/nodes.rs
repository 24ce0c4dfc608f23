//! Composite nodes, and the node type that a tree is made of.
//!
//! A composite ticks its children in order, starting at a cursor that it
//! reads from the blackboard, and writes the cursor back before it returns.
//! The node itself is never changed by a tick, so one tree can serve any
//! number of characters, each with a blackboard of its own.

use vstd::prelude::*;
use crate::bt::blackboard::{make_key, slot_key, Blackboard, BlackboardValue, Board, Value};
use crate::bt::command::BTCommand;
use crate::bt::leafs::{FindTarget, IsAtTarget, MoveToTarget, NextWaypoint, Wait, WalkToTarget};
use crate::bt::result::BTResult;
use crate::bt::{lookup, outcome_of, NodeStatus, Outcome};
use crate::character::snapshot::CharacterSnapshot;
use crate::fixed::Fixed;

verus! {

/// A node of a behaviour tree.
pub enum Node {
    Sequence(Sequence),
    Selector(Selector),
    FindTarget(FindTarget),
    MoveToTarget(MoveToTarget),
    NextWaypoint(NextWaypoint),
    IsAtTarget(IsAtTarget),
    WalkToTarget(WalkToTarget),
    Wait(Wait),
}

/// Succeeds when all its children succeed, one after the other.
pub struct Sequence {
    pub id: usize,
    pub children: Vec<Node>,
}

/// Succeeds as soon as one of its children succeeds.
pub struct Selector {
    pub id: usize,
    pub children: Vec<Node>,
}

/// The key under which the composite with the given id keeps its cursor.
pub open spec fn cursor_key(id: nat) -> Seq<char> {
    slot_key(id, ".idx"@)
}

/// The child at which a composite resumes: the index that the blackboard
/// holds under the composite's key, or 0 where it holds none.
pub open spec fn cursor(board: Board, id: nat) -> nat {
    match lookup(board, cursor_key(id)) {
        Some(Value::NodeState(index)) => index as nat,
        _ => 0,
    }
}

/// The board after a composite has stored `index` as its cursor.
pub open spec fn with_cursor(board: Board, id: nat, index: int) -> Board {
    board.insert(cursor_key(id), Value::NodeState(index as usize))
}

/// The outcome of ticking `children` from index `i` on. A child whose status
/// is `advance` hands over to the next child; any other status ends the
/// tick. A running child leaves the cursor on itself; every other end puts
/// it back to 0. When no child is left, the status is `advance`.
///
/// A sequence advances on success, a selector on failure. `done` holds the
/// commands of the children ticked before `i`.
pub open spec fn run_children(
    children: Seq<Node>,
    advance: NodeStatus,
    id: nat,
    i: nat,
    snapshot: CharacterSnapshot,
    board: Board,
    delta: Fixed,
    done: Seq<BTCommand>,
) -> Outcome
    decreases children, (if i <= children.len() {
        children.len() - i
    } else {
        0
    }),
{
    if i >= children.len() {
        Outcome { status: advance, commands: done, board: with_cursor(board, id, 0) }
    } else {
        let child = children[i as int].spec_tick(snapshot, board, delta);
        if child.status == advance {
            run_children(
                children,
                advance,
                id,
                i + 1,
                snapshot,
                child.board,
                delta,
                done + child.commands,
            )
        } else if child.status == NodeStatus::RUNNING {
            Outcome {
                status: NodeStatus::RUNNING,
                commands: done + child.commands,
                board: with_cursor(child.board, id, i as int),
            }
        } else {
            Outcome {
                status: child.status,
                commands: done + child.commands,
                board: with_cursor(child.board, id, 0),
            }
        }
    }
}

/// The outcome of a composite's tick: it resumes at its cursor.
pub open spec fn composite_tick(
    children: Seq<Node>,
    advance: NodeStatus,
    id: nat,
    snapshot: CharacterSnapshot,
    board: Board,
    delta: Fixed,
) -> Outcome
    decreases children, children.len() + 1,
{
    run_children(
        children,
        advance,
        id,
        cursor(board, id),
        snapshot,
        board,
        delta,
        Seq::empty(),
    )
}

/// Whether ticking `children[from..upto]` in order on `boards[from]` makes
/// each of them return `advance`, child `j` leaving `boards[j + 1]` behind.
pub open spec fn all_advance(
    children: Seq<Node>,
    advance: NodeStatus,
    from: int,
    upto: int,
    snapshot: CharacterSnapshot,
    boards: Seq<Board>,
    delta: Fixed,
) -> bool {
    forall|j: int|
        from <= j < upto ==> {
            &&& (#[trigger] children[j].spec_tick(snapshot, boards[j], delta)).status == advance
            &&& children[j].spec_tick(snapshot, boards[j], delta).board == boards[j + 1]
        }
}

/// When the children from `i` up to `k` advance and child `k` does not, the
/// run ends at `k` with that child's status; the cursor stays on `k` if the
/// child is running and goes back to 0 otherwise.
pub proof fn lemma_run_stops_at(
    children: Seq<Node>,
    advance: NodeStatus,
    id: nat,
    i: nat,
    k: nat,
    snapshot: CharacterSnapshot,
    boards: Seq<Board>,
    delta: Fixed,
    done: Seq<BTCommand>,
)
    requires
        i <= k < children.len(),
        boards.len() == k + 1,
        all_advance(children, advance, i as int, k as int, snapshot, boards, delta),
        children[k as int].spec_tick(snapshot, boards[k as int], delta).status != advance,
    ensures
        ({
            let last = children[k as int].spec_tick(snapshot, boards[k as int], delta);
            let run = run_children(children, advance, id, i, snapshot, boards[i as int], delta, done);
            &&& run.status == last.status
            &&& run.board == with_cursor(
                last.board,
                id,
                if last.status == NodeStatus::RUNNING {
                    k as int
                } else {
                    0
                },
            )
        }),
    decreases k - i,
{
    if i < k {
        let step = children[i as int].spec_tick(snapshot, boards[i as int], delta);
        assert(step.status == advance && step.board == boards[i as int + 1]);
        lemma_run_stops_at(
            children,
            advance,
            id,
            i + 1,
            k,
            snapshot,
            boards,
            delta,
            done + step.commands,
        );
    }
}

/// When all the children from `i` on advance, the run ends with the status
/// `advance` and the cursor at 0.
pub proof fn lemma_run_exhausts(
    children: Seq<Node>,
    advance: NodeStatus,
    id: nat,
    i: nat,
    snapshot: CharacterSnapshot,
    boards: Seq<Board>,
    delta: Fixed,
    done: Seq<BTCommand>,
)
    requires
        i <= children.len(),
        boards.len() == children.len() + 1,
        all_advance(children, advance, i as int, children.len() as int, snapshot, boards, delta),
    ensures
        ({
            let run = run_children(children, advance, id, i, snapshot, boards[i as int], delta, done);
            &&& run.status == advance
            &&& run.board == with_cursor(boards[children.len() as int], id, 0)
        }),
    decreases children.len() - i,
{
    if i < children.len() {
        let step = children[i as int].spec_tick(snapshot, boards[i as int], delta);
        assert(step.status == advance && step.board == boards[i as int + 1]);
        lemma_run_exhausts(children, advance, id, i + 1, snapshot, boards, delta, done + step.commands);
    }
}

/// A tick that does not end in `RUNNING` leaves the cursor at 0.
pub proof fn lemma_run_resets_cursor(
    children: Seq<Node>,
    advance: NodeStatus,
    id: nat,
    i: nat,
    snapshot: CharacterSnapshot,
    board: Board,
    delta: Fixed,
    done: Seq<BTCommand>,
)
    requires
        advance != NodeStatus::RUNNING,
    ensures
        ({
            let run = run_children(children, advance, id, i, snapshot, board, delta, done);
            run.status != NodeStatus::RUNNING ==> lookup(run.board, cursor_key(id)) == Some(
                Value::NodeState(0),
            )
        }),
    decreases
            (if i <= children.len() {
                children.len() - i
            } else {
                0
            }),
{
    if i < children.len() {
        let step = children[i as int].spec_tick(snapshot, board, delta);
        if step.status == advance {
            lemma_run_resets_cursor(
                children,
                advance,
                id,
                i + 1,
                snapshot,
                step.board,
                delta,
                done + step.commands,
            );
        }
    }
}

fn read_cursor(blackboard: &Blackboard, key: &str) -> (r: usize)
    ensures
        r == match lookup(blackboard@, key@) {
            Some(Value::NodeState(index)) => index as nat,
            _ => 0,
        },
{
    match blackboard.get(key) {
        Some(BlackboardValue::NodeState(index)) => index,
        _ => 0,
    }
}

fn tick_children(
    children: &Vec<Node>,
    advance: NodeStatus,
    id: usize,
    snapshot: &CharacterSnapshot,
    blackboard: &mut Blackboard,
    delta: Fixed,
) -> (r: (NodeStatus, BTResult))
    requires
        advance != NodeStatus::RUNNING,
    ensures
        outcome_of(r, final(blackboard)@) == composite_tick(
            children@,
            advance,
            id as nat,
            *snapshot,
            old(blackboard)@,
            delta,
        ),
    decreases children,
{
    let key = make_key(id, ".idx");
    let mut index: usize = read_cursor(blackboard, key.as_str());
    let mut commands: Vec<BTCommand> = Vec::new();
    let ghost goal = composite_tick(children@, advance, id as nat, *snapshot, old(blackboard)@, delta);
    while index < children.len()
        invariant
            key@ == cursor_key(id as nat),
            advance != NodeStatus::RUNNING,
            goal == composite_tick(
                children@,
                advance,
                id as nat,
                *snapshot,
                old(blackboard)@,
                delta,
            ),
            goal == run_children(
                children@,
                advance,
                id as nat,
                index as nat,
                *snapshot,
                blackboard@,
                delta,
                commands@,
            ),
        decreases children@.len() - index,
    {
        let (status, mut result) = children[index].tick(snapshot, blackboard, delta);
        commands.append(&mut result.commands);
        if status == advance {
            index += 1;
        } else if status == NodeStatus::RUNNING {
            blackboard.set(key.as_str(), BlackboardValue::NodeState(index));
            return (NodeStatus::RUNNING, BTResult { commands });
        } else {
            blackboard.set(key.as_str(), BlackboardValue::NodeState(0));
            return (status, BTResult { commands });
        }
    }
    blackboard.set(key.as_str(), BlackboardValue::NodeState(0));
    (advance, BTResult { commands })
}

impl Sequence {
    pub fn new(children: Vec<Node>) -> (r: Self)
        ensures
            r.id == 0,
            r.children == children,
    {
        Self { id: 0, children }
    }

    pub fn set_id(&mut self, id: usize)
        ensures
            final(self).id == id,
            final(self).children == old(self).children,
    {
        self.id = id;
    }

    pub fn id(&self) -> (r: usize)
        ensures
            r == self.id,
    {
        self.id
    }

    /// Does nothing: the node keeps no progress of its own. The cursor is
    /// in the blackboard of each character.
    pub fn reset(&mut self)
        ensures
            *final(self) == *old(self),
    {
    }

    pub open spec fn spec_tick(&self, snapshot: CharacterSnapshot, board: Board, delta: Fixed) -> Outcome
        decreases self,
    {
        composite_tick(self.children@, NodeStatus::SUCCESS, self.id as nat, snapshot, board, delta)
    }

    /// Ticks the children in order from the cursor. A running child ends the
    /// tick with the cursor on it; a failing child ends it in failure with
    /// the cursor back at 0; after the last child the sequence succeeds,
    /// with the cursor back at 0. The commands of all the children ticked
    /// are returned in order.
    pub fn tick(&self, snapshot: &CharacterSnapshot, blackboard: &mut Blackboard, delta: Fixed) -> (r: (
        NodeStatus,
        BTResult,
    ))
        ensures
            outcome_of(r, final(blackboard)@) == self.spec_tick(*snapshot, old(blackboard)@, delta),
        decreases self,
    {
        tick_children(&self.children, NodeStatus::SUCCESS, self.id, snapshot, blackboard, delta)
    }
}

/// A sequence whose first `k` children succeed and whose child `k` keeps
/// running returns `RUNNING` and stores `k` as its cursor, so that its next
/// tick starts at child `k`, whatever the snapshot and the time passed.
///
/// `boards[j]` is the blackboard on which child `j` is ticked; the sequence
/// starts on `boards[0]`, which holds no cursor or the cursor 0.
pub proof fn lemma_sequence_resumes_at_running_child(
    sequence: Sequence,
    k: nat,
    snapshot: CharacterSnapshot,
    boards: Seq<Board>,
    delta: Fixed,
    later_snapshot: CharacterSnapshot,
    later_delta: Fixed,
)
    requires
        k < sequence.children@.len(),
        boards.len() == k + 1,
        cursor(boards[0], sequence.id as nat) == 0,
        all_advance(sequence.children@, NodeStatus::SUCCESS, 0, k as int, snapshot, boards, delta),
        sequence.children@[k as int].spec_tick(snapshot, boards[k as int], delta).status
            == NodeStatus::RUNNING,
    ensures
        ({
            let first = sequence.spec_tick(snapshot, boards[0], delta);
            &&& first.status == NodeStatus::RUNNING
            &&& cursor(first.board, sequence.id as nat) == k
            &&& sequence.spec_tick(later_snapshot, first.board, later_delta) == run_children(
                sequence.children@,
                NodeStatus::SUCCESS,
                sequence.id as nat,
                k,
                later_snapshot,
                first.board,
                later_delta,
                Seq::empty(),
            )
        }),
{
    assert(sequence.children@.len() == sequence.children.len());
    lemma_run_stops_at(
        sequence.children@,
        NodeStatus::SUCCESS,
        sequence.id as nat,
        0,
        k,
        snapshot,
        boards,
        delta,
        Seq::empty(),
    );
}

/// A selector whose first `k` children fail and whose child `k` succeeds
/// returns `SUCCESS` at once: the blackboard is the one that child `k` left,
/// with the cursor at 0.
pub proof fn lemma_selector_success_resets_cursor(
    selector: Selector,
    k: nat,
    snapshot: CharacterSnapshot,
    boards: Seq<Board>,
    delta: Fixed,
)
    requires
        k < selector.children@.len(),
        boards.len() == k + 1,
        cursor(boards[0], selector.id as nat) == 0,
        all_advance(selector.children@, NodeStatus::FAILURE, 0, k as int, snapshot, boards, delta),
        selector.children@[k as int].spec_tick(snapshot, boards[k as int], delta).status
            == NodeStatus::SUCCESS,
    ensures
        ({
            let tick = selector.spec_tick(snapshot, boards[0], delta);
            &&& tick.status == NodeStatus::SUCCESS
            &&& tick.board == with_cursor(
                selector.children@[k as int].spec_tick(snapshot, boards[k as int], delta).board,
                selector.id as nat,
                0,
            )
            &&& cursor(tick.board, selector.id as nat) == 0
        }),
{
    lemma_run_stops_at(
        selector.children@,
        NodeStatus::FAILURE,
        selector.id as nat,
        0,
        k,
        snapshot,
        boards,
        delta,
        Seq::empty(),
    );
}

/// A selector all of whose children fail returns `FAILURE` and puts its
/// cursor back to 0.
pub proof fn lemma_selector_failure_resets_cursor(
    selector: Selector,
    snapshot: CharacterSnapshot,
    boards: Seq<Board>,
    delta: Fixed,
)
    requires
        boards.len() == selector.children@.len() + 1,
        cursor(boards[0], selector.id as nat) == 0,
        all_advance(
            selector.children@,
            NodeStatus::FAILURE,
            0,
            selector.children@.len() as int,
            snapshot,
            boards,
            delta,
        ),
    ensures
        ({
            let tick = selector.spec_tick(snapshot, boards[0], delta);
            &&& tick.status == NodeStatus::FAILURE
            &&& cursor(tick.board, selector.id as nat) == 0
        }),
{
    lemma_run_exhausts(
        selector.children@,
        NodeStatus::FAILURE,
        selector.id as nat,
        0,
        snapshot,
        boards,
        delta,
        Seq::empty(),
    );
}

/// Whatever its children do and wherever it resumes, a composite that does
/// not return `RUNNING` leaves its cursor at 0.
pub proof fn lemma_finished_composite_has_cursor_zero(
    children: Seq<Node>,
    advance: NodeStatus,
    id: nat,
    snapshot: CharacterSnapshot,
    board: Board,
    delta: Fixed,
)
    requires
        advance != NodeStatus::RUNNING,
    ensures
        ({
            let tick = composite_tick(children, advance, id, snapshot, board, delta);
            tick.status != NodeStatus::RUNNING ==> cursor(tick.board, id) == 0
        }),
{
    lemma_run_resets_cursor(
        children,
        advance,
        id,
        cursor(board, id),
        snapshot,
        board,
        delta,
        Seq::empty(),
    );
}

impl Selector {
    pub fn new(children: Vec<Node>) -> (r: Self)
        ensures
            r.id == 0,
            r.children == children,
    {
        Self { id: 0, children }
    }

    pub fn set_id(&mut self, id: usize)
        ensures
            final(self).id == id,
            final(self).children == old(self).children,
    {
        self.id = id;
    }

    pub fn id(&self) -> (r: usize)
        ensures
            r == self.id,
    {
        self.id
    }

    /// Does nothing: the node keeps no progress of its own. The cursor is
    /// in the blackboard of each character.
    pub fn reset(&mut self)
        ensures
            *final(self) == *old(self),
    {
    }

    pub open spec fn spec_tick(&self, snapshot: CharacterSnapshot, board: Board, delta: Fixed) -> Outcome
        decreases self,
    {
        composite_tick(self.children@, NodeStatus::FAILURE, self.id as nat, snapshot, board, delta)
    }

    /// Ticks the children in order from the cursor. A running child ends the
    /// tick with the cursor on it; a succeeding child ends it in success
    /// with the cursor back at 0; after the last child the selector fails,
    /// with the cursor back at 0. The commands of all the children ticked
    /// are returned in order.
    pub fn tick(&self, snapshot: &CharacterSnapshot, blackboard: &mut Blackboard, delta: Fixed) -> (r: (
        NodeStatus,
        BTResult,
    ))
        ensures
            outcome_of(r, final(blackboard)@) == self.spec_tick(*snapshot, old(blackboard)@, delta),
        decreases self,
    {
        tick_children(&self.children, NodeStatus::FAILURE, self.id, snapshot, blackboard, delta)
    }
}

impl Node {
    /// What a tick of this node does, as a function of the snapshot, the
    /// blackboard before the tick and the time passed.
    pub open spec fn spec_tick(&self, snapshot: CharacterSnapshot, board: Board, delta: Fixed) -> Outcome
        decreases self,
    {
        match self {
            Node::Sequence(n) => n.spec_tick(snapshot, board, delta),
            Node::Selector(n) => n.spec_tick(snapshot, board, delta),
            Node::FindTarget(n) => n.spec_tick(snapshot, board, delta),
            Node::MoveToTarget(n) => n.spec_tick(snapshot, board, delta),
            Node::NextWaypoint(n) => n.spec_tick(snapshot, board, delta),
            Node::IsAtTarget(n) => n.spec_tick(snapshot, board, delta),
            Node::WalkToTarget(n) => n.spec_tick(snapshot, board, delta),
            Node::Wait(n) => n.spec_tick(snapshot, board, delta),
        }
    }

    /// Ticks the node against a character's snapshot and blackboard.
    pub fn tick(&self, snapshot: &CharacterSnapshot, blackboard: &mut Blackboard, delta: Fixed) -> (r: (
        NodeStatus,
        BTResult,
    ))
        ensures
            outcome_of(r, final(blackboard)@) == self.spec_tick(*snapshot, old(blackboard)@, delta),
        decreases self,
    {
        match self {
            Node::Sequence(n) => n.tick(snapshot, blackboard, delta),
            Node::Selector(n) => n.tick(snapshot, blackboard, delta),
            Node::FindTarget(n) => n.tick(snapshot, blackboard, delta),
            Node::MoveToTarget(n) => n.tick(snapshot, blackboard, delta),
            Node::NextWaypoint(n) => n.tick(snapshot, blackboard, delta),
            Node::IsAtTarget(n) => n.tick(snapshot, blackboard, delta),
            Node::WalkToTarget(n) => n.tick(snapshot, blackboard, delta),
            Node::Wait(n) => n.tick(snapshot, blackboard, delta),
        }
    }

    /// The id of the node.
    pub open spec fn spec_id(&self) -> usize {
        match self {
            Node::Sequence(n) => n.id,
            Node::Selector(n) => n.id,
            Node::FindTarget(n) => n.id,
            Node::MoveToTarget(n) => n.id,
            Node::NextWaypoint(n) => n.id,
            Node::IsAtTarget(n) => n.id,
            Node::WalkToTarget(n) => n.id,
            Node::Wait(n) => n.id,
        }
    }

    /// Does nothing: no node keeps progress of its own.
    pub fn reset(&mut self)
        ensures
            *final(self) == *old(self),
    {
    }

    /// The id of the node.
    pub fn id(&self) -> (r: usize)
        ensures
            r == self.spec_id(),
    {
        match self {
            Node::Sequence(n) => n.id,
            Node::Selector(n) => n.id,
            Node::FindTarget(n) => n.id,
            Node::MoveToTarget(n) => n.id,
            Node::NextWaypoint(n) => n.id,
            Node::IsAtTarget(n) => n.id,
            Node::WalkToTarget(n) => n.id,
            Node::Wait(n) => n.id,
        }
    }
}

} // verus!
