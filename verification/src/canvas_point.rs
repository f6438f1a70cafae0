//! The 2D grid point that every stroke's geometry is written in.

use vstd::prelude::*;

verus! {

use vstd::math::abs;
use crate::angle::{
    angle_of, dir_x, dir_y, norm, norm_angle, scaled, FULL_TURN, HALF_TURN, QUARTER_TURN,
};

/// A point on the integer drawing grid.
#[derive(Clone, Copy, Debug, PartialEq, Eq, Structural)]
pub struct CanvasPoint {
    pub x: i32,
    pub y: i32,
}

impl Default for CanvasPoint {
    /// The origin.
    fn default() -> (p: Self)
        ensures
            p.x == 0,
            p.y == 0,
    {
        CanvasPoint { x: 0, y: 0 }
    }
}

impl CanvasPoint {
    /// The angle from `self` toward `other`, in angle units in
    /// `[0, FULL_TURN)`; 0 when the points coincide.
    pub fn angle_to(&self, other: CanvasPoint) -> (a: i64)
        ensures
            a == angle_of(other.x - self.x, other.y - self.y),
            0 <= a < FULL_TURN,
    {
        let dx: i64 = other.x as i64 - self.x as i64;
        let dy: i64 = other.y as i64 - self.y as i64;
        if dx == 0 && dy == 0 {
            0
        } else {
            let ax: u64 = abs_i64(dx) as u64;
            let ay: u64 = abs_i64(dy) as u64;
            let s: u64 = ax + ay;
            let qt: u64 = QUARTER_TURN as u64;
            if dx > 0 && dy >= 0 {
                let a = ((qt * (dy as u64)) / s) as i64;
                proof {
                    lemma_octant_in_quarter(dy as int, s as int);
                }
                a
            } else if dx <= 0 && dy > 0 {
                let a = QUARTER_TURN + ((qt * ((-dx) as u64)) / s) as i64;
                proof {
                    lemma_octant_in_quarter(-dx, s as int);
                }
                a
            } else if dx < 0 && dy <= 0 {
                let a = HALF_TURN + ((qt * ((-dy) as u64)) / s) as i64;
                proof {
                    lemma_octant_in_quarter(-dy, s as int);
                }
                a
            } else {
                let a = 3 * QUARTER_TURN + ((qt * (dx as u64)) / s) as i64;
                proof {
                    lemma_octant_in_quarter(dx as int, s as int);
                }
                a
            }
        }
    }

    /// The point at distance `radius` from `self` in the direction of
    /// `angle`: `self` displaced by the diamond direction of `angle`, scaled
    /// to `radius`. The bounds keep the result on the grid.
    pub fn point_at(&self, angle: i64, radius: i32) -> (p: CanvasPoint)
        requires
            i32::MIN <= self.x - (abs(radius as int) as int),
            self.x + (abs(radius as int) as int) <= i32::MAX,
            i32::MIN <= self.y - (abs(radius as int) as int),
            self.y + (abs(radius as int) as int) <= i32::MAX,
        ensures
            p.x == self.x + scaled(radius as int, dir_x(norm(angle as int))),
            p.y == self.y + scaled(radius as int, dir_y(norm(angle as int))),
    {
        let (ux, uy) = dir_units(angle);
        proof {
            lemma_dir_bounded(norm(angle as int));
        }
        let ox = scale_by_quarter(radius as i64, ux);
        let oy = scale_by_quarter(radius as i64, uy);
        proof {
            lemma_scaled_bounded(radius as int, dir_x(norm(angle as int)));
            lemma_scaled_bounded(radius as int, dir_y(norm(angle as int)));
        }
        CanvasPoint { x: (self.x as i64 + ox) as i32, y: (self.y as i64 + oy) as i32 }
    }
}

/// `|v|`, for any `v` above `i64::MIN`.
pub fn abs_i64(v: i64) -> (r: i64)
    requires
        v != i64::MIN,
    ensures
        r == abs(v as int) as int,
{
    if v >= 0 {
        v
    } else {
        -v
    }
}

/// The diamond direction of any angle, components scaled by `QUARTER_TURN`.
pub fn dir_units(angle: i64) -> (d: (i64, i64))
    ensures
        d.0 == dir_x(norm(angle as int)),
        d.1 == dir_y(norm(angle as int)),
{
    let n = norm_angle(angle);
    let q = ((n as u64) / (QUARTER_TURN as u64)) as i64;
    let t = ((n as u64) % (QUARTER_TURN as u64)) as i64;
    if q == 0 {
        (QUARTER_TURN - t, t)
    } else if q == 1 {
        (-t, QUARTER_TURN - t)
    } else if q == 2 {
        (t - QUARTER_TURN, -t)
    } else {
        (t, t - QUARTER_TURN)
    }
}

/// `r * u / QUARTER_TURN`, rounded toward zero, for `|r| <= i32` range and
/// `|u| <= QUARTER_TURN`.
pub fn scale_by_quarter(r: i64, u: i64) -> (o: i64)
    requires
        -0x8000_0000 <= r <= 0x8000_0000,
        -QUARTER_TURN <= u <= QUARTER_TURN,
    ensures
        o == scaled(r as int, u as int),
{
    proof {
        assert(-0x2000_0000_0000i64 <= r * u <= 0x2000_0000_0000i64) by (nonlinear_arith)
            requires
                -0x8000_0000 <= r <= 0x8000_0000,
                -16384 <= u <= 16384,
        ;
    }
    let p: i64 = r * u;
    if p >= 0 {
        ((p as u64) / (QUARTER_TURN as u64)) as i64
    } else {
        -((((-p) as u64) / (QUARTER_TURN as u64)) as i64)
    }
}

/// In every quadrant branch of `angle_of`, the within-quadrant part is in
/// `[0, QUARTER_TURN)`.
proof fn lemma_octant_in_quarter(n: int, s: int)
    requires
        0 <= n < s,
    ensures
        0 <= ((QUARTER_TURN as int) * n) / s < QUARTER_TURN as int,
{
    vstd::arithmetic::div_mod::lemma_div_pos_is_pos((QUARTER_TURN as int) * n, s);
    assert((QUARTER_TURN as int) * n < s * (QUARTER_TURN as int)) by (nonlinear_arith)
        requires 0 <= n < s;
    vstd::arithmetic::div_mod::lemma_multiply_divide_lt((QUARTER_TURN as int) * n, s, QUARTER_TURN as int);
}

/// Diamond direction components never leave `[-QUARTER_TURN, QUARTER_TURN]`.
pub proof fn lemma_dir_bounded(a: int)
    ensures
        -QUARTER_TURN <= dir_x(a) <= QUARTER_TURN,
        -QUARTER_TURN <= dir_y(a) <= QUARTER_TURN,
{
    vstd::arithmetic::div_mod::lemma_mod_division_less_than_divisor(a, QUARTER_TURN as int);
}

/// A direction component scaled to radius `r` never exceeds `|r|`.
pub proof fn lemma_scaled_bounded(r: int, u: int)
    requires
        -QUARTER_TURN <= u <= QUARTER_TURN,
    ensures
        -(abs(r) as int) <= scaled(r, u) <= abs(r) as int,
{
    let qt = QUARTER_TURN as int;
    let ar = abs(r) as int;
    let p = r * u;
    assert(-(ar * qt) <= p <= ar * qt) by (nonlinear_arith)
        requires -qt <= u <= qt, p == r * u, ar == abs(r) as int;
    if p >= 0 {
        vstd::arithmetic::div_mod::lemma_div_is_ordered(p, ar * qt, qt);
        vstd::arithmetic::div_mod::lemma_div_multiples_vanish(ar, qt);
        vstd::arithmetic::div_mod::lemma_div_pos_is_pos(p, qt);
        assert(qt * ar == ar * qt) by (nonlinear_arith);
    } else {
        vstd::arithmetic::div_mod::lemma_div_is_ordered(-p, ar * qt, qt);
        vstd::arithmetic::div_mod::lemma_div_multiples_vanish(ar, qt);
        vstd::arithmetic::div_mod::lemma_div_pos_is_pos(-p, qt);
        assert(qt * ar == ar * qt) by (nonlinear_arith);
    }
}

} // verus!
