//! A behaviour tree: a root node whose nodes are numbered once, when the
//! tree is built.

use vstd::prelude::*;
use std::sync::Arc;
use crate::bt::blackboard::Blackboard;
use crate::bt::leafs::Wait;
use crate::bt::nodes::{Node, Selector, Sequence};
use crate::bt::result::BTResult;
use crate::character::snapshot::CharacterSnapshot;
use crate::fixed::Fixed;

verus! {

/// A tree of nodes. Once built it is never changed, and can be shared by
/// every character that behaves in this way.
pub struct BehaviourTree {
    pub root: Node,
}

/// A shared handle to a tree.
pub type BTRef = Arc<BehaviourTree>;

/// The number of nodes in the first `n` of `children`, their descendants
/// included.
pub open spec fn size_of_first(children: Seq<Node>, n: nat) -> nat
    decreases children, n,
{
    if n == 0 || n > children.len() {
        0
    } else {
        size_of_first(children, (n - 1) as nat) + children[n - 1].size()
    }
}

/// Whether `children` are numbered one after the other in pre-order, the
/// first child starting at `first`.
pub open spec fn numbered_from(children: Seq<Node>, first: nat) -> bool
    decreases children, 0nat,
{
    forall|j: int|
        0 <= j < children.len() ==> (#[trigger] children[j]).numbered(
            first + size_of_first(children, j as nat),
        )
}

/// Whether two sequences of nodes have the same shape, node by node.
pub open spec fn same_shapes(a: Seq<Node>, b: Seq<Node>) -> bool
    decreases a, 0nat,
{
    &&& a.len() == b.len()
    &&& forall|j: int| 0 <= j < a.len() ==> (#[trigger] a[j]).same_shape(b[j])
}

impl Node {
    /// The number of nodes in the subtree.
    pub open spec fn size(&self) -> nat
        decreases self, 0nat,
    {
        match self {
            Node::Sequence(n) => 1 + size_of_first(n.children@, n.children@.len()),
            Node::Selector(n) => 1 + size_of_first(n.children@, n.children@.len()),
            _ => 1,
        }
    }

    /// Whether the subtree is numbered in pre-order starting at `first`: the
    /// node has the id `first`, and each child's subtree starts right after
    /// the ids of the node and of the children before it.
    pub open spec fn numbered(&self, first: nat) -> bool
        decreases self, 1nat,
    {
        &&& self.spec_id() == first
        &&& match self {
            Node::Sequence(n) => numbered_from(n.children@, first + 1),
            Node::Selector(n) => numbered_from(n.children@, first + 1),
            _ => true,
        }
    }

    /// Whether the two subtrees are the same but for the ids of their nodes.
    pub open spec fn same_shape(&self, other: Node) -> bool
        decreases self, 1nat,
    {
        match (self, other) {
            (Node::Sequence(a), Node::Sequence(b)) => same_shapes(a.children@, b.children@),
            (Node::Selector(a), Node::Selector(b)) => same_shapes(a.children@, b.children@),
            (Node::FindTarget(a), Node::FindTarget(b)) => a.target_key == b.target_key,
            (Node::MoveToTarget(a), Node::MoveToTarget(b)) => a.target_key == b.target_key,
            (Node::NextWaypoint(a), Node::NextWaypoint(b)) => {
                &&& a.target_key == b.target_key
                &&& a.waypoints == b.waypoints
                &&& a.tile_size == b.tile_size
            },
            (Node::IsAtTarget(a), Node::IsAtTarget(b)) => {
                &&& a.target_key == b.target_key
                &&& a.threshold == b.threshold
            },
            (Node::WalkToTarget(a), Node::WalkToTarget(b)) => a.target_key == b.target_key,
            (Node::Wait(a), Node::Wait(b)) => a.delay == b.delay,
            _ => false,
        }
    }
}

impl Node {
    /// The children of a composite; none for a leaf.
    pub open spec fn spec_children(&self) -> Option<Seq<Node>> {
        match self {
            Node::Sequence(n) => Some(n.children@),
            Node::Selector(n) => Some(n.children@),
            _ => None,
        }
    }

    /// The id of the node that `path` leads to. The empty path leads to the
    /// node itself, a path that starts with `j` leads into child `j`.
    pub open spec fn id_at(&self, path: Seq<int>) -> Option<nat>
        decreases path.len(),
    {
        if path.len() == 0 {
            Some(self.spec_id() as nat)
        } else {
            match self.spec_children() {
                Some(children) => if 0 <= path[0] < children.len() {
                    children[path[0]].id_at(path.drop_first())
                } else {
                    None
                },
                None => None,
            }
        }
    }
}

/// A longer prefix holds at least as many nodes.
proof fn lemma_sizes_monotone(children: Seq<Node>, a: nat, b: nat)
    requires
        a <= b <= children.len(),
    ensures
        size_of_first(children, a) <= size_of_first(children, b),
    decreases b - a,
{
    if a < b {
        lemma_sizes_monotone(children, a, (b - 1) as nat);
    }
}

/// In a subtree numbered from `first`, every id lies in the range of as
/// many numbers as the subtree has nodes, and only the root has the id
/// `first`.
pub proof fn lemma_ids_in_range(node: Node, first: nat, path: Seq<int>)
    requires
        node.numbered(first),
        node.id_at(path) is Some,
    ensures
        first <= node.id_at(path)->0 < first + node.size(),
        path.len() > 0 ==> node.id_at(path)->0 > first,
    decreases path.len(),
{
    if path.len() > 0 {
        let children = node.spec_children()->0;
        let j = path[0];
        let start = first + 1 + size_of_first(children, j as nat);
        assert(numbered_from(children, first + 1));
        assert(children[j].numbered(start));
        lemma_ids_in_range(children[j], start, path.drop_first());
        lemma_size_step(children, j as nat);
    }
}

/// In a numbered tree no two nodes have the same id: two paths that lead to
/// one id are the same path.
pub proof fn lemma_ids_are_unique(root: Node, first: nat, p: Seq<int>, q: Seq<int>)
    requires
        root.numbered(first),
        root.id_at(p) is Some,
        root.id_at(p) == root.id_at(q),
    ensures
        p == q,
    decreases p.len(),
{
    lemma_ids_in_range(root, first, p);
    lemma_ids_in_range(root, first, q);
    if p.len() == 0 || q.len() == 0 {
        assert(p.len() == 0 && q.len() == 0);
        assert(p =~= q);
    } else {
        let children = root.spec_children()->0;
        let i = p[0];
        let j = q[0];
        let start_i = first + 1 + size_of_first(children, i as nat);
        let start_j = first + 1 + size_of_first(children, j as nat);
        assert(numbered_from(children, first + 1));
        assert(children[i].numbered(start_i));
        assert(children[j].numbered(start_j));
        lemma_ids_in_range(children[i], start_i, p.drop_first());
        lemma_ids_in_range(children[j], start_j, q.drop_first());
        lemma_size_step(children, i as nat);
        lemma_size_step(children, j as nat);
        if i < j {
            lemma_sizes_monotone(children, (i + 1) as nat, j as nat);
        } else if j < i {
            lemma_sizes_monotone(children, (j + 1) as nat, i as nat);
        } else {
            lemma_ids_are_unique(children[i], start_i, p.drop_first(), q.drop_first());
            assert(p =~= seq![i] + p.drop_first());
            assert(q =~= seq![j] + q.drop_first());
        }
    }
}

/// The first `n + 1` children hold the nodes of the first `n` and those of
/// child `n`.
proof fn lemma_size_step(children: Seq<Node>, n: nat)
    requires
        n < children.len(),
    ensures
        size_of_first(children, n + 1) == size_of_first(children, n) + children[n as int].size(),
        size_of_first(children, n + 1) <= size_of_first(children, children.len()),
    decreases children.len() - n,
{
    assert(size_of_first(children, n + 1) == size_of_first(children, n) + children[n as int].size());
    if n + 1 < children.len() {
        lemma_size_step(children, n + 1);
    }
}

/// Numbers the children in order, the first from `counter`. Returns them
/// with the first id that is still free. Ids stop at the largest number.
fn assign_children(children: Vec<Node>, counter: usize) -> (r: (Vec<Node>, usize))
    ensures
        same_shapes(r.0@, children@),
        size_of_first(r.0@, r.0@.len()) == size_of_first(children@, children@.len()),
        counter + size_of_first(children@, children@.len()) <= usize::MAX ==> {
            &&& numbered_from(r.0@, counter as nat)
            &&& r.1 == counter + size_of_first(children@, children@.len())
        },
    decreases children,
{
    let ghost fits = counter + size_of_first(children@, children@.len()) <= usize::MAX;
    let ghost given = children@;
    let mut rest = children;
    let mut stack: Vec<Node> = Vec::new();
    while rest.len() > 0
        invariant
            rest@.len() + stack@.len() == given.len(),
            forall|j: int| 0 <= j < rest@.len() ==> rest@[j] == given[j],
            forall|j: int|
                0 <= j < stack@.len() ==> stack@[j] == given[given.len() - 1 - j],
        decreases rest@.len(),
    {
        let node = rest.pop().unwrap();
        stack.push(node);
    }
    let mut out: Vec<Node> = Vec::new();
    let mut next: usize = counter;
    while stack.len() > 0
        invariant
            out@.len() + stack@.len() == given.len(),
            given == children@,
            forall|j: int|
                0 <= j < stack@.len() ==> stack@[j] == given[given.len() - 1 - j],
            fits == (counter + size_of_first(given, given.len()) <= usize::MAX),
            fits ==> forall|j: int|
                0 <= j < out@.len() ==> (#[trigger] out@[j]).numbered(
                    counter as nat + size_of_first(out@, j as nat),
                ),
            forall|j: int| 0 <= j < out@.len() ==> (#[trigger] out@[j]).same_shape(given[j]),
            forall|j: nat|
                j <= out@.len() ==> #[trigger] size_of_first(out@, j) == size_of_first(given, j),
            fits ==> next == counter + size_of_first(given, out@.len()),
        decreases stack@.len(),
    {
        let ghost k = out@.len();
        let ghost before = out@;
        let node = stack.pop().unwrap();
        proof {
            assert(node == given[k as int]);
            lemma_size_step(given, k);
        }
        let (numbered, after) = assign_ids(node, next);
        out.push(numbered);
        next = after;
        proof {
            assert forall|j: nat| j <= out@.len() implies #[trigger] size_of_first(out@, j)
                == size_of_first(given, j) by {
                lemma_prefix_sizes(before, out@, given, j);
            }
            if fits {
                assert forall|j: int| 0 <= j < out@.len() implies (#[trigger] out@[j]).numbered(
                    counter as nat + size_of_first(out@, j as nat),
                ) by {
                    if j < k {
                        assert(out@[j] == before[j]);
                        lemma_prefix_sizes(before, out@, given, j as nat);
                        assert(size_of_first(before, j as nat) == size_of_first(given, j as nat));
                    }
                }
            }
        }
    }
    (out, next)
}

/// Extending a sequence by one node keeps the sizes of its prefixes, and the
/// sizes agree with those of a sequence of nodes of the same sizes.
proof fn lemma_prefix_sizes(before: Seq<Node>, after: Seq<Node>, given: Seq<Node>, j: nat)
    requires
        after.len() == before.len() + 1,
        after.len() <= given.len(),
        forall|i: int| 0 <= i < before.len() ==> after[i] == before[i],
        forall|i: nat|
            i <= before.len() ==> #[trigger] size_of_first(before, i) == size_of_first(given, i),
        after[before.len() as int].size() == given[before.len() as int].size(),
        j <= after.len(),
    ensures
        size_of_first(after, j) == size_of_first(given, j),
        j <= before.len() ==> size_of_first(before, j) == size_of_first(given, j),
    decreases j,
{
    if j > 0 {
        lemma_prefix_sizes(before, after, given, (j - 1) as nat);
        if j <= before.len() {
            assert(after[j - 1] == before[j - 1]);
            assert(size_of_first(before, j) == size_of_first(before, (j - 1) as nat) + before[j
                - 1].size());
            assert(size_of_first(given, j) == size_of_first(given, (j - 1) as nat)
                + given[j - 1].size());
        }
    }
}

/// The id after `counter`; the largest number is its own successor.
fn following(counter: usize) -> (r: usize)
    ensures
        r == if counter < usize::MAX {
            counter + 1
        } else {
            counter as int
        },
{
    if counter < usize::MAX {
        counter + 1
    } else {
        counter
    }
}

/// Numbers the subtree in pre-order from `counter`. Returns it with the
/// first id that is still free. Ids stop at the largest number.
fn assign_ids(node: Node, counter: usize) -> (r: (Node, usize))
    ensures
        r.0.same_shape(node),
        r.0.size() == node.size(),
        counter + node.size() <= usize::MAX ==> r.0.numbered(counter as nat) && r.1 == counter
            + node.size(),
    decreases node,
{
    match node {
        Node::Sequence(n) => {
            let (children, next) = assign_children(n.children, following(counter));
            (Node::Sequence(Sequence { id: counter, children }), next)
        },
        Node::Selector(n) => {
            let (children, next) = assign_children(n.children, following(counter));
            (Node::Selector(Selector { id: counter, children }), next)
        },
        Node::FindTarget(mut n) => {
            n.set_id(counter);
            (Node::FindTarget(n), following(counter))
        },
        Node::MoveToTarget(mut n) => {
            n.set_id(counter);
            (Node::MoveToTarget(n), following(counter))
        },
        Node::NextWaypoint(mut n) => {
            n.set_id(counter);
            (Node::NextWaypoint(n), following(counter))
        },
        Node::IsAtTarget(mut n) => {
            n.set_id(counter);
            (Node::IsAtTarget(n), following(counter))
        },
        Node::WalkToTarget(mut n) => {
            n.set_id(counter);
            (Node::WalkToTarget(n), following(counter))
        },
        Node::Wait(mut n) => {
            n.set_id(counter);
            (Node::Wait(n), following(counter))
        },
    }
}

impl BehaviourTree {
    /// Ticks the root and returns the commands of the tick. The status of
    /// the root is not reported.
    pub fn tick(&self, snapshot: &CharacterSnapshot, blackboard: &mut Blackboard, delta: Fixed) -> (r:
        BTResult)
        ensures
            r.commands@ == self.root.spec_tick(*snapshot, old(blackboard)@, delta).commands,
            final(blackboard)@ == self.root.spec_tick(*snapshot, old(blackboard)@, delta).board,
    {
        let (_status, result) = self.root.tick(snapshot, blackboard, delta);
        result
    }

    /// The tree that waits one unit of time, over and over. Its nodes are
    /// not numbered: both have the id 0.
    pub fn default() -> (r: Self)
        ensures
            r.root matches Node::Sequence(s) && s.id == 0 && s.children@.len() == 1 && (
            s.children@[0] matches Node::Wait(w) && w.id == 0 && w.delay.raw == 1000),
    {
        let mut children: Vec<Node> = Vec::new();
        children.push(Node::Wait(Wait::new(Fixed { raw: 1000 })));
        BehaviourTree { root: Node::Sequence(Sequence::new(children)) }
    }

    /// Builds a tree from its root and numbers the nodes in pre-order,
    /// starting from 1. The numbering holds for every tree with fewer nodes
    /// than there are ids.
    pub fn new(root: Node) -> (r: Self)
        ensures
            r.root.same_shape(root),
            root.size() < usize::MAX ==> r.root.numbered(1),
    {
        let (root, _next) = assign_ids(root, 1);
        BehaviourTree { root }
    }
}

} // verus!
