//! World-space vectors with fixed-point components.

use vstd::prelude::*;
use crate::fixed::{clamp_i32, div_toward_zero, int_sqrt, isqrt, saturate, trunc_div, Fixed, SCALE};

verus! {

/// A point or displacement in world space.
#[derive(Debug, Clone, Copy, PartialEq, Eq, Structural)]
pub struct Vector2D {
    pub x: Fixed,
    pub y: Fixed,
}

/// The squared distance between two points, in squared thousandths.
pub open spec fn dist_sq(a: Vector2D, b: Vector2D) -> int {
    (a.x.raw - b.x.raw) * (a.x.raw - b.x.raw) + (a.y.raw - b.y.raw) * (a.y.raw - b.y.raw)
}

/// How far one coordinate moves when a point steps `step` thousandths along
/// a segment of length `dist` whose extent on that axis is `extent`.
pub open spec fn axis_step(extent: int, step: int, dist: int) -> int {
    trunc_div(extent * step, dist)
}

/// A step along a segment never exceeds the segment's own extent, and keeps
/// its sign.
pub proof fn lemma_axis_step_bounded(extent: int, step: int, dist: int)
    requires
        0 <= step <= dist,
        dist > 0,
    ensures
        extent >= 0 ==> 0 <= axis_step(extent, step, dist) <= extent,
        extent <= 0 ==> extent <= axis_step(extent, step, dist) <= 0,
{
    if extent >= 0 {
        assert(0 <= extent * step <= extent * dist) by (nonlinear_arith)
            requires
                0 <= extent,
                0 <= step <= dist,
        ;
        assert(0 <= (extent * step) / dist <= extent) by (nonlinear_arith)
            requires
                0 <= extent * step <= extent * dist,
                dist > 0,
        ;
    } else {
        let e = -extent;
        assert(-(extent * step) == e * step) by (nonlinear_arith)
            requires
                e == -extent,
        ;
        assert(0 <= e * step <= e * dist) by (nonlinear_arith)
            requires
                0 <= e,
                0 <= step <= dist,
        ;
        assert(0 <= (e * step) / dist <= e) by (nonlinear_arith)
            requires
                0 <= e * step <= e * dist,
                dist > 0,
        ;
        if extent * step >= 0 {
            assert(e * step == 0);
            assert((0int) / dist == 0) by (nonlinear_arith)
                requires
                    dist > 0,
            ;
        }
    }
}

impl Vector2D {
    pub fn new(x: Fixed, y: Fixed) -> (r: Self)
        ensures
            r.x == x,
            r.y == y,
    {
        Self { x, y }
    }

    /// The origin.
    pub fn zero() -> (r: Self)
        ensures
            r == Self::spec_zero(),
    {
        Self { x: Fixed { raw: 0 }, y: Fixed { raw: 0 } }
    }

    pub open spec fn spec_zero() -> Self {
        Self { x: Fixed { raw: 0 }, y: Fixed { raw: 0 } }
    }

    /// The squared length, in squared thousandths.
    pub open spec fn norm_sq(self) -> int {
        self.x.raw * self.x.raw + self.y.raw * self.y.raw
    }

    pub open spec fn spec_length_squared(self) -> Fixed {
        Fixed { raw: clamp_i32(trunc_div(self.norm_sq(), SCALE as int)) }
    }

    pub open spec fn spec_length(self) -> Fixed {
        Fixed { raw: clamp_i32(int_sqrt(self.norm_sq())) }
    }

    pub open spec fn spec_distance_to(self, other: Self) -> Fixed {
        Fixed { raw: clamp_i32(int_sqrt(dist_sq(self, other))) }
    }

    pub open spec fn spec_add(self, rhs: Self) -> Self {
        Self { x: self.x.spec_add(rhs.x), y: self.y.spec_add(rhs.y) }
    }

    pub open spec fn spec_sub(self, rhs: Self) -> Self {
        Self { x: self.x.spec_sub(rhs.x), y: self.y.spec_sub(rhs.y) }
    }

    pub open spec fn spec_mul(self, scalar: Fixed) -> Self {
        Self { x: self.x.spec_mul(scalar), y: self.y.spec_mul(scalar) }
    }

    /// The unit vector in the direction of `self`, or zero for a vector no
    /// longer than one thousandth.
    pub open spec fn spec_normalized(self) -> Self {
        let len = int_sqrt(self.norm_sq());
        if len > 1 {
            Self {
                x: Fixed { raw: clamp_i32(trunc_div(self.x.raw * SCALE, len)) },
                y: Fixed { raw: clamp_i32(trunc_div(self.y.raw * SCALE, len)) },
            }
        } else {
            Self::spec_zero()
        }
    }

    /// Whether `other` lies at distance `radius` or less.
    pub open spec fn spec_within(self, other: Self, radius: Fixed) -> bool {
        radius.raw >= 0 && dist_sq(self, other) <= radius.raw * radius.raw
    }

    /// Whether `other` lies at a distance strictly below `radius`.
    pub open spec fn spec_closer_than(self, other: Self, radius: Fixed) -> bool {
        radius.raw > 0 && dist_sq(self, other) < radius.raw * radius.raw
    }

    /// The point reached from `self` by a step of `delta` toward `to`: `to`
    /// itself when it is within reach or within one thousandth.
    pub open spec fn spec_move_toward(self, to: Self, delta: Fixed) -> Self {
        let s = dist_sq(self, to);
        if (delta.raw >= 0 && s <= delta.raw * delta.raw) || s <= 1 {
            to
        } else {
            let d = int_sqrt(s);
            Self {
                x: Fixed {
                    raw: clamp_i32(self.x.raw + axis_step(to.x.raw - self.x.raw, delta.raw as int, d)),
                },
                y: Fixed {
                    raw: clamp_i32(self.y.raw + axis_step(to.y.raw - self.y.raw, delta.raw as int, d)),
                },
            }
        }
    }

    pub open spec fn spec_approx_eq(self, other: Self) -> bool {
        &&& -1 <= self.x.raw - other.x.raw <= 1
        &&& -1 <= self.y.raw - other.y.raw <= 1
    }

    /// The exact squared distance to `other`, in squared thousandths.
    pub fn distance_squared(self, other: Self) -> (r: u128)
        ensures
            r == dist_sq(self, other),
            r <= 0x2_0000_0000_0000_0000,
    {
        let dx: i128 = self.x.raw as i128 - other.x.raw as i128;
        let dy: i128 = self.y.raw as i128 - other.y.raw as i128;
        assert(0 <= dx * dx <= 0x1_0000_0000_0000_0000) by (nonlinear_arith)
            requires
                -0x1_0000_0000 <= dx <= 0x1_0000_0000,
        ;
        assert(0 <= dy * dy <= 0x1_0000_0000_0000_0000) by (nonlinear_arith)
            requires
                -0x1_0000_0000 <= dy <= 0x1_0000_0000,
        ;
        (dx * dx + dy * dy) as u128
    }

    /// The squared length, rounded toward zero and saturated.
    pub fn length_squared(self) -> (r: Fixed)
        ensures
            r == self.spec_length_squared(),
    {
        let s: u128 = self.distance_squared(Self::zero());
        Fixed { raw: saturate(div_toward_zero(s as i128, 1000)) }
    }

    /// The length, rounded down to a thousandth and saturated.
    pub fn length(self) -> (r: Fixed)
        ensures
            r == self.spec_length(),
    {
        let s: u128 = self.distance_squared(Self::zero());
        Fixed { raw: saturate(isqrt(s) as i128) }
    }

    /// The distance to `other`, rounded down to a thousandth and saturated.
    pub fn distance_to(self, other: Self) -> (r: Fixed)
        ensures
            r == self.spec_distance_to(other),
    {
        let s: u128 = self.distance_squared(other);
        Fixed { raw: saturate(isqrt(s) as i128) }
    }

    /// Whether `other` lies at distance `radius` or less. The comparison is
    /// exact: it is made on squared distances.
    pub fn within(self, other: Self, radius: Fixed) -> (r: bool)
        ensures
            r == self.spec_within(other, radius),
    {
        if radius.raw < 0 {
            return false;
        }
        let t: u128 = radius.raw as u128;
        assert(t * t <= 0x4000_0000_0000_0000) by (nonlinear_arith)
            requires
                0 <= t <= 0x8000_0000,
        ;
        self.distance_squared(other) <= t * t
    }

    /// Whether `other` lies at a distance strictly below `radius`.
    pub fn closer_than(self, other: Self, radius: Fixed) -> (r: bool)
        ensures
            r == self.spec_closer_than(other, radius),
    {
        if radius.raw <= 0 {
            return false;
        }
        let t: u128 = radius.raw as u128;
        assert(t * t <= 0x4000_0000_0000_0000) by (nonlinear_arith)
            requires
                0 <= t <= 0x8000_0000,
        ;
        self.distance_squared(other) < t * t
    }

    /// The unit vector in the direction of `self`.
    pub fn normalized(self) -> (r: Self)
        ensures
            r == self.spec_normalized(),
    {
        let s: u128 = self.distance_squared(Self::zero());
        let len: u64 = isqrt(s);
        if len > 1 {
            let x: i128 = self.x.raw as i128 * 1000;
            let y: i128 = self.y.raw as i128 * 1000;
            Self {
                x: Fixed { raw: saturate(div_toward_zero(x, len as i128)) },
                y: Fixed { raw: saturate(div_toward_zero(y, len as i128)) },
            }
        } else {
            Self::zero()
        }
    }

    /// Moves this point toward `to` by at most `delta`, without overshooting.
    pub fn move_toward(self, to: Self, delta: Fixed) -> (r: Self)
        ensures
            r == self.spec_move_toward(to, delta),
            delta.raw >= 0 && self.x.raw <= to.x.raw ==> self.x.raw <= r.x.raw <= to.x.raw,
            delta.raw >= 0 && self.x.raw >= to.x.raw ==> self.x.raw >= r.x.raw >= to.x.raw,
            delta.raw >= 0 && self.y.raw <= to.y.raw ==> self.y.raw <= r.y.raw <= to.y.raw,
            delta.raw >= 0 && self.y.raw >= to.y.raw ==> self.y.raw >= r.y.raw >= to.y.raw,
    {
        let s: u128 = self.distance_squared(to);
        let mut reached: bool = s <= 1;
        if delta.raw >= 0 {
            let t: u128 = delta.raw as u128;
            assert(t * t <= 0x4000_0000_0000_0000) by (nonlinear_arith)
                requires
                    0 <= t <= 0x8000_0000,
            ;
            if s <= t * t {
                reached = true;
            }
        }
        if reached {
            return to;
        }
        let d: u64 = isqrt(s);
        let step: i128 = delta.raw as i128;
        let dx: i128 = to.x.raw as i128 - self.x.raw as i128;
        let dy: i128 = to.y.raw as i128 - self.y.raw as i128;
        proof {
            assert(d >= 1) by {
                if d == 0 {
                    assert((0 + 1) * (0 + 1) == 1int) by (nonlinear_arith);
                }
            }
            assert(d <= 0x2_0000_0000) by {
                if d > 0x2_0000_0000 {
                    assert(d * d > 0x2_0000_0000_0000_0000) by (nonlinear_arith)
                        requires
                            d > 0x2_0000_0000,
                    ;
                }
            }
            if delta.raw >= 0 {
                assert(step <= d) by {
                    if step > d {
                        assert(step * step >= (d + 1) * (d + 1)) by (nonlinear_arith)
                            requires
                                step >= d + 1,
                                d >= 0,
                        ;
                    }
                }
                lemma_axis_step_bounded(dx as int, step as int, d as int);
                lemma_axis_step_bounded(dy as int, step as int, d as int);
            }
            assert(-0x8000_0000_0000_0000 <= dx * step <= 0x8000_0000_0000_0000) by (nonlinear_arith)
                requires
                    -0x1_0000_0000 <= dx <= 0x1_0000_0000,
                    -0x8000_0000 <= step <= 0x8000_0000,
            ;
            assert(-0x8000_0000_0000_0000 <= dy * step <= 0x8000_0000_0000_0000) by (nonlinear_arith)
                requires
                    -0x1_0000_0000 <= dy <= 0x1_0000_0000,
                    -0x8000_0000 <= step <= 0x8000_0000,
            ;
        }
        let mx: i128 = div_toward_zero(dx * step, d as i128);
        let my: i128 = div_toward_zero(dy * step, d as i128);
        proof {
            assert(-0x8000_0000_0000_0000 <= mx <= 0x8000_0000_0000_0000) by {
                lemma_trunc_div_shrinks(dx * step, d as int);
            }
            assert(-0x8000_0000_0000_0000 <= my <= 0x8000_0000_0000_0000) by {
                lemma_trunc_div_shrinks(dy * step, d as int);
            }
        }
        Self {
            x: Fixed { raw: saturate(self.x.raw as i128 + mx) },
            y: Fixed { raw: saturate(self.y.raw as i128 + my) },
        }
    }

    /// Whether the two points differ by at most one thousandth on each axis.
    pub fn approx_eq(self, other: &Self) -> (r: bool)
        ensures
            r == self.spec_approx_eq(*other),
    {
        let dx: i64 = self.x.raw as i64 - other.x.raw as i64;
        let dy: i64 = self.y.raw as i64 - other.y.raw as i64;
        -1 <= dx && dx <= 1 && -1 <= dy && dy <= 1
    }

    /// Component-wise saturating sum.
    pub fn add(self, other: Self) -> (r: Self)
        ensures
            r == self.spec_add(other),
    {
        Self { x: self.x.add(other.x), y: self.y.add(other.y) }
    }

    /// Component-wise saturating difference.
    pub fn sub(self, rhs: Self) -> (r: Self)
        ensures
            r == self.spec_sub(rhs),
    {
        Self { x: self.x.sub(rhs.x), y: self.y.sub(rhs.y) }
    }

    /// Both components multiplied by `scalar`.
    pub fn mul(self, scalar: Fixed) -> (r: Self)
        ensures
            r == self.spec_mul(scalar),
    {
        Self { x: self.x.mul(scalar), y: self.y.mul(scalar) }
    }

    /// Multiplies both components by `scalar` in place.
    pub fn mul_assign(&mut self, scalar: Fixed)
        ensures
            *final(self) == old(self).spec_mul(scalar),
    {
        self.x = self.x.mul(scalar);
        self.y = self.y.mul(scalar);
    }
}

/// Dividing by a positive number, rounding toward zero, never grows the
/// magnitude.
pub proof fn lemma_trunc_div_shrinks(a: int, b: int)
    requires
        b > 0,
    ensures
        a >= 0 ==> 0 <= trunc_div(a, b) <= a,
        a <= 0 ==> a <= trunc_div(a, b) <= 0,
{
    if a >= 0 {
        assert(0 <= a / b <= a) by (nonlinear_arith)
            requires
                a >= 0,
                b > 0,
        ;
    } else {
        let e = -a;
        assert(0 <= e / b <= e) by (nonlinear_arith)
            requires
                e >= 0,
                b > 0,
        ;
    }
}

} // verus!
