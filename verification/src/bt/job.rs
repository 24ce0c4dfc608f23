//! One request to tick a tree for a character.

use vstd::prelude::*;
use crate::bt::blackboard::Blackboard;
use crate::bt::result::BTResult;
use crate::bt::tree::BTRef;
use crate::character::snapshot::{CharacterId, CharacterSnapshot};
use crate::fixed::Fixed;

verus! {

/// What a worker needs to tick a character's tree: who asks, what the
/// character looked like, which tree to tick and how much time has passed.
pub struct BTJob {
    pub character_id: CharacterId,
    pub snapshot: CharacterSnapshot,
    pub bt: BTRef,
    pub delta: Fixed,
}

impl BTJob {
    /// Ticks the job's tree against the character's blackboard, and returns
    /// the commands under the character's id.
    pub fn run(&self, blackboard: &mut Blackboard) -> (r: (CharacterId, BTResult))
        ensures
            r.0 == self.character_id,
            r.1.commands@ == self.bt.root.spec_tick(
                self.snapshot,
                old(blackboard)@,
                self.delta,
            ).commands,
            final(blackboard)@ == self.bt.root.spec_tick(
                self.snapshot,
                old(blackboard)@,
                self.delta,
            ).board,
    {
        let result = self.bt.tick(&self.snapshot, blackboard, self.delta);
        (self.character_id, result)
    }
}

} // verus!
