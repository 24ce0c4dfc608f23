//! Grid coordinates.

use vstd::prelude::*;
use crate::fixed::{clamp_i32, int_sqrt, isqrt, saturate, Fixed};

verus! {

/// A cell of the grid, or a difference between two cells.
#[derive(Debug, Clone, Copy, PartialEq, Eq, Structural)]
pub struct Vector2Di {
    pub x: i32,
    pub y: i32,
}

impl Vector2Di {
    pub fn new(x: i32, y: i32) -> (r: Self)
        ensures
            r.x == x,
            r.y == y,
    {
        Self { x, y }
    }

    /// The origin.
    pub fn zero() -> (r: Self)
        ensures
            r.x == 0,
            r.y == 0,
    {
        Self { x: 0, y: 0 }
    }

    /// The squared Euclidean length, as a mathematical integer.
    pub open spec fn norm_sq(self) -> int {
        self.x * self.x + self.y * self.y
    }

    /// The squared Euclidean length.
    pub fn length_squared(self) -> (r: i32)
        requires
            self.norm_sq() <= i32::MAX,
        ensures
            r == self.norm_sq(),
    {
        assert(0 <= self.x * self.x <= self.norm_sq() && 0 <= self.y * self.y) by (nonlinear_arith)
            requires
                self.norm_sq() == self.x * self.x + self.y * self.y,
        ;
        self.x * self.x + self.y * self.y
    }

    /// The length of a grid vector in thousandths of a cell, rounded down.
    pub open spec fn spec_length(self) -> Fixed {
        Fixed { raw: clamp_i32(int_sqrt(self.norm_sq() * 1_000_000)) }
    }

    /// The Euclidean length, rounded down to a thousandth and saturated.
    pub fn length(&self) -> (r: Fixed)
        ensures
            r == self.spec_length(),
    {
        let x: i128 = self.x as i128;
        let y: i128 = self.y as i128;
        assert(0 <= x * x <= 0x4000_0000_0000_0000) by (nonlinear_arith)
            requires
                -0x8000_0000 <= x <= 0x8000_0000,
        ;
        assert(0 <= y * y <= 0x4000_0000_0000_0000) by (nonlinear_arith)
            requires
                -0x8000_0000 <= y <= 0x8000_0000,
        ;
        let sq: i128 = x * x + y * y;
        let scaled: i128 = sq * 1_000_000;
        let root: u64 = isqrt(scaled as u128);
        Fixed { raw: saturate(root as i128) }
    }

    /// Whether `v` is representable as a grid coordinate.
    pub open spec fn fits(v: int) -> bool {
        i32::MIN <= v <= i32::MAX
    }

    /// The distance between two cells, in thousandths of a cell.
    pub open spec fn spec_distance_to(self, other: Self) -> Fixed {
        let dx = self.x - other.x;
        let dy = self.y - other.y;
        Fixed { raw: clamp_i32(int_sqrt((dx * dx + dy * dy) * 1_000_000)) }
    }

    /// The Euclidean distance to `other`, rounded down to a thousandth and
    /// saturated.
    pub fn distance_to(self, other: Self) -> (r: Fixed)
        ensures
            r == self.spec_distance_to(other),
    {
        let dx: i128 = self.x as i128 - other.x as i128;
        let dy: i128 = self.y as i128 - other.y as i128;
        assert(0 <= dx * dx <= 0x1_0000_0000_0000_0000) by (nonlinear_arith)
            requires
                -0x1_0000_0000 <= dx <= 0x1_0000_0000,
        ;
        assert(0 <= dy * dy <= 0x1_0000_0000_0000_0000) by (nonlinear_arith)
            requires
                -0x1_0000_0000 <= dy <= 0x1_0000_0000,
        ;
        let sq: i128 = dx * dx + dy * dy;
        let scaled: i128 = sq * 1_000_000;
        let root: u64 = isqrt(scaled as u128);
        Fixed { raw: saturate(root as i128) }
    }

    /// Component-wise sum.
    pub fn add(self, other: Self) -> (r: Self)
        requires
            Self::fits(self.x + other.x),
            Self::fits(self.y + other.y),
        ensures
            r.x == self.x + other.x,
            r.y == self.y + other.y,
    {
        Self { x: self.x + other.x, y: self.y + other.y }
    }

    /// Component-wise difference.
    pub fn sub(self, rhs: Self) -> (r: Self)
        requires
            Self::fits(self.x - rhs.x),
            Self::fits(self.y - rhs.y),
        ensures
            r.x == self.x - rhs.x,
            r.y == self.y - rhs.y,
    {
        Self { x: self.x - rhs.x, y: self.y - rhs.y }
    }

    /// Both components multiplied by `scalar`.
    pub fn mul(self, scalar: i32) -> (r: Self)
        requires
            Self::fits(self.x * scalar),
            Self::fits(self.y * scalar),
        ensures
            r.x == self.x * scalar,
            r.y == self.y * scalar,
    {
        Self { x: self.x * scalar, y: self.y * scalar }
    }

    /// Multiplies both components by `scalar` in place.
    pub fn mul_assign(&mut self, scalar: i32)
        requires
            Self::fits(old(self).x * scalar),
            Self::fits(old(self).y * scalar),
        ensures
            final(self).x == old(self).x * scalar,
            final(self).y == old(self).y * scalar,
    {
        self.x = self.x * scalar;
        self.y = self.y * scalar;
    }
}

} // verus!
