//! The animation sink that a character drives.

use vstd::prelude::*;
use crate::fixed::Fixed;
use crate::vector2d::Vector2D;

verus! {

/// Where a character's animations are played and where its position is
/// kept.
///
/// A sink is modelled as a state machine: each call takes the sink to the
/// state that the matching `after_..` function names. Of those states the
/// character relies on three facts only, which an implementation must
/// provide: playing an animation and advancing the sink leave the position
/// alone, and setting the position sets it.
///
/// The functions of the model have bodies so that an implementation that is
/// not verified can leave them out; a verified one defines them all.
pub trait Animator: Sized {
    /// The position of the character.
    open spec fn position(&self) -> Vector2D {
        Vector2D::spec_zero()
    }

    /// The position of the character in the coordinates of the whole scene.
    open spec fn global_position(&self) -> Vector2D {
        Vector2D::spec_zero()
    }

    /// Whether an animation is playing.
    open spec fn playing(&self) -> bool {
        false
    }

    /// The sink after `play(name)`.
    open spec fn after_play(&self, name: Seq<char>) -> Self {
        *self
    }

    /// The sink after `process(delta)`.
    open spec fn after_process(&self, delta: Fixed) -> Self {
        *self
    }

    /// The sink after `set_position(position)`.
    open spec fn after_set_position(&self, position: Vector2D) -> Self {
        *self
    }

    /// Starts the animation of the given name.
    fn play(&mut self, name: &str)
        ensures
            *final(self) == old(self).after_play(name@),
            final(self).position() == old(self).position(),
    ;

    /// Whether an animation is playing.
    fn is_playing(&self) -> (r: bool)
        ensures
            r == self.playing(),
    ;

    /// Advances the running animation by `delta`.
    fn process(&mut self, delta: Fixed)
        ensures
            *final(self) == old(self).after_process(delta),
            final(self).position() == old(self).position(),
    ;

    /// Moves the character to `position`.
    fn set_position(&mut self, position: Vector2D)
        ensures
            *final(self) == old(self).after_set_position(position),
            final(self).position() == position,
    ;

    /// The position of the character.
    fn get_position(&self) -> (r: Vector2D)
        ensures
            r == self.position(),
    ;

    /// The position of the character in the coordinates of the whole scene.
    fn get_global_position(&self) -> (r: Vector2D)
        ensures
            r == self.global_position(),
    ;
}

} // verus!
