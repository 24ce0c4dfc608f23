//! The per-character memory of a behaviour tree.
//!
//! A tree is shared by all the characters that run it and holds no state of
//! its own. What a node must remember between ticks (the child at which a
//! composite resumes, a timer) lives in the character's blackboard, under a
//! key made from the node's id.

use vstd::prelude::*;
use vstd::hash_map::StringHashMap;
use vstd::string::*;
use crate::fixed::Fixed;
use crate::text::{chars_of, decimal, decimal_chars, push_all, string_of};
use crate::vector2d::Vector2D;

verus! {

/// A value stored in a blackboard.
#[derive(Clone, Debug, PartialEq)]
pub enum BlackboardValue {
    Bool(bool),
    Int(i32),
    Float(Fixed),
    String(String),
    Vector(Vector2D),
    /// What a node keeps between ticks: for a composite, the index of the
    /// child at which it resumes.
    NodeState(usize),
}

/// The mathematical content of a [`BlackboardValue`].
pub enum Value {
    Bool(bool),
    Int(i32),
    Float(Fixed),
    Text(Seq<char>),
    Vector(Vector2D),
    NodeState(usize),
}

/// The mathematical content of a blackboard: a map from keys to values.
pub type Board = Map<Seq<char>, Value>;

impl View for BlackboardValue {
    type V = Value;

    open spec fn view(&self) -> Value {
        match self {
            BlackboardValue::Bool(b) => Value::Bool(*b),
            BlackboardValue::Int(i) => Value::Int(*i),
            BlackboardValue::Float(f) => Value::Float(*f),
            BlackboardValue::String(s) => Value::Text(s@),
            BlackboardValue::Vector(v) => Value::Vector(*v),
            BlackboardValue::NodeState(s) => Value::NodeState(*s),
        }
    }
}

impl BlackboardValue {
    /// A copy of the value.
    pub fn copied(&self) -> (r: BlackboardValue)
        ensures
            r@ == self@,
    {
        match self {
            BlackboardValue::Bool(b) => BlackboardValue::Bool(*b),
            BlackboardValue::Int(i) => BlackboardValue::Int(*i),
            BlackboardValue::Float(f) => BlackboardValue::Float(*f),
            BlackboardValue::String(s) => BlackboardValue::String(s.clone()),
            BlackboardValue::Vector(v) => BlackboardValue::Vector(*v),
            BlackboardValue::NodeState(s) => BlackboardValue::NodeState(*s),
        }
    }
}

/// The key under which the node with the given id keeps the slot named by
/// `suffix`: the id in decimal, followed by the suffix.
pub open spec fn slot_key(id: nat, suffix: Seq<char>) -> Seq<char> {
    decimal(id) + suffix
}

/// Builds the key of a node's slot.
pub fn make_key(id: usize, suffix: &str) -> (key: String)
    ensures
        key@ == slot_key(id as nat, suffix@),
{
    let mut chars = decimal_chars(id as u128);
    let tail = chars_of(suffix);
    push_all(&mut chars, &tail);
    string_of(&chars)
}

/// Nodes with different ids keep a slot of one name under different keys.
pub proof fn lemma_slot_keys_differ(a: nat, b: nat, suffix: Seq<char>)
    requires
        a != b,
    ensures
        slot_key(a, suffix) != slot_key(b, suffix),
{
    if slot_key(a, suffix) == slot_key(b, suffix) {
        let ka = slot_key(a, suffix);
        let kb = slot_key(b, suffix);
        assert(decimal(a).len() == ka.len() - suffix.len());
        assert(decimal(b).len() == kb.len() - suffix.len());
        assert(decimal(a) =~= ka.subrange(0, decimal(a).len() as int));
        assert(decimal(b) =~= kb.subrange(0, decimal(b).len() as int));
        crate::text::lemma_decimal_injective(a, b);
    }
}

/// A string-keyed store of tagged values.
pub struct Blackboard {
    data: StringHashMap<BlackboardValue>,
}

impl View for Blackboard {
    type V = Board;

    closed spec fn view(&self) -> Board {
        self.data@.map_values(|v: BlackboardValue| v@)
    }
}

impl Default for Blackboard {
    /// An empty blackboard.
    fn default() -> (r: Self)
        ensures
            r@ == Map::<Seq<char>, Value>::empty(),
    {
        Blackboard::new()
    }
}

impl Blackboard {
    /// An empty blackboard.
    pub fn new() -> (r: Self)
        ensures
            r@ == Map::<Seq<char>, Value>::empty(),
    {
        let r = Self { data: StringHashMap::new() };
        assert(r@ =~= Map::<Seq<char>, Value>::empty());
        r
    }

    /// Stores `value` under `key`, replacing what was there.
    pub fn set(&mut self, key: &str, value: BlackboardValue)
        ensures
            final(self)@ == old(self)@.insert(key@, value@),
    {
        self.data.insert(String::from_str(key), value);
        assert(self@ =~= old(self)@.insert(key@, value@));
    }

    /// A copy of the value stored under `key`, if there is one.
    pub fn get(&self, key: &str) -> (r: Option<BlackboardValue>)
        ensures
            match r {
                Some(v) => self@.contains_key(key@) && self@[key@] == v@,
                None => !self@.contains_key(key@),
            },
    {
        match self.data.get(key) {
            Some(v) => Some(v.copied()),
            None => None,
        }
    }

    /// Whether a value is stored under `key`.
    pub fn has(&self, key: &str) -> (r: bool)
        ensures
            r == self@.contains_key(key@),
    {
        self.data.contains_key(key)
    }
}

} // verus!
