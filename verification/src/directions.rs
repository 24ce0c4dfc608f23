//! The four facings of a character.

use vstd::prelude::*;
use crate::fixed::Fixed;
use crate::vector2d::Vector2D;

verus! {

/// A cardinal direction. North is up: the world's y axis grows southward.
#[derive(Clone, PartialEq, Eq, Debug, Copy, Structural)]
pub enum Direction {
    NORTH,
    SOUTH,
    WEST,
    EAST,
}

impl Direction {
    /// The x component of the unit step, in whole units.
    pub open spec fn unit_x(self) -> int {
        match self {
            Direction::EAST => 1,
            Direction::WEST => -1,
            _ => 0,
        }
    }

    /// The y component of the unit step, in whole units.
    pub open spec fn unit_y(self) -> int {
        match self {
            Direction::SOUTH => 1,
            Direction::NORTH => -1,
            _ => 0,
        }
    }

    pub open spec fn spec_to_vector(self) -> Vector2D {
        Vector2D {
            x: Fixed { raw: (self.unit_x() * 1000) as i32 },
            y: Fixed { raw: (self.unit_y() * 1000) as i32 },
        }
    }

    /// The unit vector that points in this direction.
    pub fn to_vector(&self) -> (r: Vector2D)
        ensures
            r == self.spec_to_vector(),
    {
        match self {
            Direction::NORTH => Vector2D { x: Fixed { raw: 0 }, y: Fixed { raw: -1000 } },
            Direction::EAST => Vector2D { x: Fixed { raw: 1000 }, y: Fixed { raw: 0 } },
            Direction::SOUTH => Vector2D { x: Fixed { raw: 0 }, y: Fixed { raw: 1000 } },
            Direction::WEST => Vector2D { x: Fixed { raw: -1000 }, y: Fixed { raw: 0 } },
        }
    }

    /// The lower-case name used in animation names.
    pub open spec fn spec_name(self) -> Seq<char> {
        match self {
            Direction::NORTH => "north"@,
            Direction::SOUTH => "south"@,
            Direction::WEST => "west"@,
            Direction::EAST => "east"@,
        }
    }

    /// The lower-case name of the direction: `north`, `south`, `west` or
    /// `east`.
    pub fn name(&self) -> (r: &'static str)
        ensures
            r@ == self.spec_name(),
    {
        match self {
            Direction::NORTH => "north",
            Direction::SOUTH => "south",
            Direction::WEST => "west",
            Direction::EAST => "east",
        }
    }

    /// The cardinal direction that dominates the displacement `(dx, dy)`:
    /// the x axis when `|dx| >= |dy|`, else the y axis.
    pub open spec fn dominant(dx: int, dy: int) -> Direction {
        let ax = if dx >= 0 { dx } else { -dx };
        let ay = if dy >= 0 { dy } else { -dy };
        if ax >= ay {
            if dx > 0 {
                Direction::EAST
            } else {
                Direction::WEST
            }
        } else {
            if dy > 0 {
                Direction::SOUTH
            } else {
                Direction::NORTH
            }
        }
    }

    pub open spec fn spec_toward(from: Vector2D, to: Vector2D) -> Direction {
        Self::dominant(to.x.raw - from.x.raw, to.y.raw - from.y.raw)
    }

    /// The cardinal direction in which `to` mostly lies, seen from `from`.
    /// On a tie between the axes the x axis wins.
    pub fn toward(from: Vector2D, to: Vector2D) -> (r: Direction)
        ensures
            r == Self::spec_toward(from, to),
    {
        let dx: i64 = to.x.raw as i64 - from.x.raw as i64;
        let dy: i64 = to.y.raw as i64 - from.y.raw as i64;
        let ax: i64 = if dx >= 0 { dx } else { -dx };
        let ay: i64 = if dy >= 0 { dy } else { -dy };
        if ax >= ay {
            if dx > 0 {
                Direction::EAST
            } else {
                Direction::WEST
            }
        } else {
            if dy > 0 {
                Direction::SOUTH
            } else {
                Direction::NORTH
            }
        }
    }
}

} // verus!
