//! An animation sink without a screen: it counts frames.

use vstd::prelude::*;
use vstd::hash_map::StringHashMap;
use vstd::string::*;
use crate::animator::Animator;
use crate::fixed::Fixed;
use crate::vector2d::Vector2D;

verus! {

/// A sink that knows a table of animations by name, each with its number
/// of frames and whether it repeats, and advances the current animation by
/// one frame per tick.
pub struct ConsoleAnimator {
    pub frames: StringHashMap<(usize, bool)>,
    /// The frames and the repeat flag of the animation that was started
    /// last; none if its name was not in the table.
    pub current: Option<(usize, bool)>,
    pub current_frame: usize,
    pub position: Vector2D,
}

/// The animations that a new sink knows.
pub open spec fn known_animations() -> Map<Seq<char>, (usize, bool)> {
    Map::<Seq<char>, (usize, bool)>::empty().insert("stand_south"@, (1usize, true)).insert(
        "stand_north"@,
        (1usize, true),
    ).insert("stand_west"@, (1usize, true)).insert("stand_east"@, (1usize, true)).insert(
        "turn_south_east"@,
        (3usize, false),
    ).insert("turn_east_south"@, (3usize, false)).insert("turn_south_west"@, (3usize, false)).insert(
        "turn_west_north"@,
        (3usize, false),
    ).insert("turn_north_east"@, (3usize, false))
}

/// The frame that follows `frame` in an animation of `count` frames: a
/// repeating animation starts over after its last frame, any other stays
/// behind it.
pub open spec fn next_frame(frame: usize, count: usize, repeats: bool) -> usize {
    if frame + 1 >= count {
        if repeats {
            0
        } else {
            count
        }
    } else {
        (frame + 1) as usize
    }
}

impl ConsoleAnimator {
    /// A sink at the origin that plays nothing and knows the animations of
    /// [`known_animations`].
    pub fn new() -> (r: Self)
        ensures
            r.frames@ == known_animations(),
            r.current is None,
            r.current_frame == 0,
            r.position == Vector2D::spec_zero(),
    {
        let mut frames: StringHashMap<(usize, bool)> = StringHashMap::new();
        frames.insert(String::from_str("stand_south"), (1, true));
        frames.insert(String::from_str("stand_north"), (1, true));
        frames.insert(String::from_str("stand_west"), (1, true));
        frames.insert(String::from_str("stand_east"), (1, true));
        frames.insert(String::from_str("turn_south_east"), (3, false));
        frames.insert(String::from_str("turn_east_south"), (3, false));
        frames.insert(String::from_str("turn_south_west"), (3, false));
        frames.insert(String::from_str("turn_west_north"), (3, false));
        frames.insert(String::from_str("turn_north_east"), (3, false));
        Self { frames, current: None, current_frame: 0, position: Vector2D::zero() }
    }
}

impl Animator for ConsoleAnimator {
    open spec fn position(&self) -> Vector2D {
        self.position
    }

    open spec fn global_position(&self) -> Vector2D {
        self.position
    }

    /// A repeating animation plays for ever, any other until its last frame
    /// has passed.
    open spec fn playing(&self) -> bool {
        match self.current {
            Some((count, repeats)) => repeats || self.current_frame < count,
            None => false,
        }
    }

    open spec fn after_play(&self, name: Seq<char>) -> Self {
        ConsoleAnimator {
            current: if self.frames@.contains_key(name) {
                Some(self.frames@[name])
            } else {
                None
            },
            current_frame: 0,
            ..*self
        }
    }

    open spec fn after_process(&self, delta: Fixed) -> Self {
        match self.current {
            Some((count, repeats)) => ConsoleAnimator {
                current_frame: next_frame(self.current_frame, count, repeats),
                ..*self
            },
            None => *self,
        }
    }

    open spec fn after_set_position(&self, position: Vector2D) -> Self {
        ConsoleAnimator { position, ..*self }
    }

    fn play(&mut self, name: &str) {
        let found = match self.frames.get(name) {
            Some(entry) => Some(*entry),
            None => None,
        };
        self.current = found;
        self.current_frame = 0;
    }

    fn is_playing(&self) -> (r: bool) {
        match self.current {
            Some((count, repeats)) => repeats || self.current_frame < count,
            None => false,
        }
    }

    fn process(&mut self, delta: Fixed) {
        match self.current {
            Some((count, repeats)) => {
                if count == 0 || self.current_frame >= count - 1 {
                    if repeats {
                        self.current_frame = 0;
                    } else {
                        self.current_frame = count;
                    }
                } else {
                    self.current_frame = self.current_frame + 1;
                }
            },
            None => {},
        }
    }

    fn set_position(&mut self, position: Vector2D) {
        self.position = position;
    }

    fn get_position(&self) -> (r: Vector2D) {
        self.position
    }

    fn get_global_position(&self) -> (r: Vector2D) {
        self.position
    }
}

} // verus!
