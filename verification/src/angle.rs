//! Binary angle measurement.
//!
//! Angles are measured in integer units, `FULL_TURN` of them to one
//! revolution, counted counterclockwise from the positive x axis. Directions
//! are parametrized on the unit diamond `|x| + |y| == QUARTER_TURN`: the
//! direction of an angle `a` is the point reached after walking `a` units
//! along the diamond's perimeter from `(QUARTER_TURN, 0)`. The parametrization
//! is piecewise linear, so it has an exact integer inverse (`angle_of`), which
//! is what makes angles recoverable from points.

use vstd::prelude::*;

verus! {

use vstd::math::abs;

/// One full revolution, in angle units.
pub const FULL_TURN: i64 = 65536;

/// Half a revolution, in angle units.
pub const HALF_TURN: i64 = 32768;

/// A quarter of a revolution, in angle units; also the diamond radius.
pub const QUARTER_TURN: i64 = 16384;

/// The angle of the direction `(dx, dy)`, in `[0, FULL_TURN)`: the inverse of
/// the diamond parametrization. The zero vector is assigned angle 0.
pub open spec fn angle_of(dx: int, dy: int) -> int {
    if dx == 0 && dy == 0 {
        0
    } else {
        let s = (abs(dx) + abs(dy)) as int;
        let qt = QUARTER_TURN as int;
        if dx > 0 && dy >= 0 {
            (qt * dy) / s
        } else if dx <= 0 && dy > 0 {
            qt + (qt * (-dx)) / s
        } else if dx < 0 && dy <= 0 {
            (HALF_TURN as int) + (qt * (-dy)) / s
        } else {
            3 * qt + (qt * dx) / s
        }
    }
}

/// The x component of the diamond direction of an angle `a` in
/// `[0, FULL_TURN)`, scaled by `QUARTER_TURN`.
pub open spec fn dir_x(a: int) -> int {
    let qt = QUARTER_TURN as int;
    let q = a / qt;
    let t = a % qt;
    if q == 0 {
        qt - t
    } else if q == 1 {
        -t
    } else if q == 2 {
        t - qt
    } else {
        t
    }
}

/// The y component of the diamond direction of an angle `a` in
/// `[0, FULL_TURN)`, scaled by `QUARTER_TURN`.
pub open spec fn dir_y(a: int) -> int {
    let qt = QUARTER_TURN as int;
    let q = a / qt;
    let t = a % qt;
    if q == 0 {
        t
    } else if q == 1 {
        qt - t
    } else if q == 2 {
        -t
    } else {
        t - qt
    }
}

/// `r * u / QUARTER_TURN`, rounded toward zero: the length a direction
/// component `u` contributes at radius `r`.
pub open spec fn scaled(r: int, u: int) -> int {
    let qt = QUARTER_TURN as int;
    if r * u >= 0 {
        (r * u) / qt
    } else {
        -((-(r * u)) / qt)
    }
}

/// Reduces any angle to its representative in `[0, FULL_TURN)`.
pub open spec fn norm(a: int) -> int {
    a % (FULL_TURN as int)
}

/// Euclidean remainder of any angle by `FULL_TURN`, into `[0, FULL_TURN)`.
pub fn norm_angle(a: i64) -> (r: i64)
    ensures
        r == norm(a as int),
        0 <= r < FULL_TURN,
{
    if a >= 0 {
        let r = ((a as u64) % (FULL_TURN as u64)) as i64;
        proof {
            vstd::arithmetic::div_mod::lemma_mod_division_less_than_divisor(
                a as int,
                FULL_TURN as int,
            );
        }
        r
    } else {
        // |a| without overflow even at i64::MIN
        let m: u64 = (-(a + 1)) as u64 + 1;
        let rm = (m % (FULL_TURN as u64)) as i64;
        proof {
            lemma_norm_neg(a as int, m as int, rm as int);
        }
        if rm == 0 {
            0
        } else {
            FULL_TURN - rm
        }
    }
}

/// At a radius that is a whole multiple of the diamond radius, scaling a
/// direction component loses nothing: `scaled(k * QUARTER_TURN, u) == k * u`.
pub proof fn lemma_scaled_multiple(k: int, u: int)
    requires
        k >= 1,
        -QUARTER_TURN <= u <= QUARTER_TURN,
    ensures
        scaled(k * (QUARTER_TURN as int), u) == k * u,
{
    let qt = QUARTER_TURN as int;
    let r = k * qt;
    if u >= 0 {
        assert(r * u == qt * (k * u) && r * u >= 0) by (nonlinear_arith)
            requires
                r == k * qt,
                k >= 1,
                u >= 0,
                qt == QUARTER_TURN as int,
        ;
        vstd::arithmetic::div_mod::lemma_div_multiples_vanish(k * u, qt);
        assert((r * u) / qt == k * u);
    } else {
        assert(r * u < 0 && (-(r * u)) == qt * (k * (-u))) by (nonlinear_arith)
            requires
                r == k * qt,
                k >= 1,
                u < 0,
                qt == QUARTER_TURN as int,
        ;
        vstd::arithmetic::div_mod::lemma_div_multiples_vanish(k * (-u), qt);
        assert((-(r * u)) / qt == k * (-u));
        assert(k * (-u) == -(k * u)) by (nonlinear_arith);
        assert(scaled(r, u) == -((-(r * u)) / qt));
    }
}

/// The diamond parametrization round-trips exactly: placing a point at any
/// angle `a` and at any radius that is a whole positive multiple of the
/// diamond radius, then reading the angle back off the displacement,
/// recovers `a` itself.
pub proof fn lemma_angle_of_inverts_dir(a: int, r: int)
    requires
        0 <= a < FULL_TURN,
        r >= 1,
        r % (QUARTER_TURN as int) == 0,
    ensures
        angle_of(scaled(r, dir_x(a)), scaled(r, dir_y(a))) == a,
{
    let qt = QUARTER_TURN as int;
    let k = r / qt;
    vstd::arithmetic::div_mod::lemma_fundamental_div_mod(r, qt);
    assert(r == qt * k);
    assert(k >= 1) by (nonlinear_arith)
        requires
            r == qt * k,
            r >= 1,
            qt == QUARTER_TURN as int,
    ;
    let q = a / qt;
    let t = a % qt;
    vstd::arithmetic::div_mod::lemma_fundamental_div_mod(a, qt);
    vstd::arithmetic::div_mod::lemma_mod_division_less_than_divisor(a, qt);
    vstd::arithmetic::div_mod::lemma_div_pos_is_pos(a, qt);
    vstd::arithmetic::div_mod::lemma_multiply_divide_lt(a, qt, 4);
    assert(0 <= q <= 3);
    let dx = dir_x(a);
    let dy = dir_y(a);
    lemma_scaled_multiple(k, dx);
    lemma_scaled_multiple(k, dy);
    assert(k * qt == qt * k) by (nonlinear_arith);
    let sx = scaled(r, dx);
    let sy = scaled(r, dy);
    assert(sx == k * dx);
    assert(sy == k * dy);
    vstd::arithmetic::div_mod::lemma_div_multiples_vanish(t, k * qt);
    assert(k * qt >= 1 && ((k * qt) * t) == qt * (k * t)) by (nonlinear_arith)
        requires
            k >= 1,
            qt == QUARTER_TURN as int,
    ;
    if q == 0 {
        assert(dx == qt - t && dy == t);
        assert(sx >= k && sy >= 0 && sx + sy == k * qt && sy == k * t) by (nonlinear_arith)
            requires
                sx == k * dx,
                sy == k * dy,
                dx == qt - t,
                dy == t,
                0 <= t < qt,
                k >= 1,
        ;
        assert(angle_of(sx, sy) == (qt * sy) / ((abs(sx) + abs(sy)) as int));
        assert(angle_of(sx, sy) == t);
    } else if q == 1 {
        assert(dx == -t && dy == qt - t);
        assert(sx <= 0 && sy >= k && (-sx) + sy == k * qt && (-sx) == k * t) by (nonlinear_arith)
            requires
                sx == k * dx,
                sy == k * dy,
                dx == -t,
                dy == qt - t,
                0 <= t < qt,
                k >= 1,
        ;
        assert(angle_of(sx, sy) == qt + (qt * (-sx)) / ((abs(sx) + abs(sy)) as int));
        assert(angle_of(sx, sy) == qt + t);
    } else if q == 2 {
        assert(dx == t - qt && dy == -t);
        assert(sx <= -k && sy <= 0 && (-sx) + (-sy) == k * qt && (-sy) == k * t)
            by (nonlinear_arith)
            requires
                sx == k * dx,
                sy == k * dy,
                dx == t - qt,
                dy == -t,
                0 <= t < qt,
                k >= 1,
        ;
        assert(angle_of(sx, sy) == (HALF_TURN as int) + (qt * (-sy)) / ((abs(sx) + abs(
            sy,
        )) as int));
        assert(angle_of(sx, sy) == 2 * qt + t);
    } else {
        assert(dx == t && dy == t - qt);
        assert(sx >= 0 && sy <= -k && sx + (-sy) == k * qt && sx == k * t) by (nonlinear_arith)
            requires
                sx == k * dx,
                sy == k * dy,
                dx == t,
                dy == t - qt,
                0 <= t < qt,
                k >= 1,
        ;
        assert(angle_of(sx, sy) == 3 * qt + (qt * sx) / ((abs(sx) + abs(sy)) as int));
        assert(angle_of(sx, sy) == 3 * qt + t);
    }
}

proof fn lemma_norm_neg(a: int, m: int, rm: int)
    requires
        a < 0,
        m == -a,
        rm == m % (FULL_TURN as int),
    ensures
        rm == 0 ==> norm(a) == 0,
        rm != 0 ==> norm(a) == FULL_TURN - rm,
{
    let f = FULL_TURN as int;
    vstd::arithmetic::div_mod::lemma_fundamental_div_mod(m, f);
    vstd::arithmetic::div_mod::lemma_mod_division_less_than_divisor(m, f);
    let q = m / f;
    assert(a == (-q) * f + (-rm)) by (nonlinear_arith)
        requires m == q * f + rm, m == -a;
    if rm == 0 {
        vstd::arithmetic::div_mod::lemma_mod_multiples_basic(-q, f);
        assert(norm(a) == ((-q) * f) % f);
    } else {
        assert(a == (-q - 1) * f + (f - rm)) by (nonlinear_arith)
            requires a == (-q) * f + (-rm);
        vstd::arithmetic::div_mod::lemma_mod_multiples_vanish(-q - 1, f - rm, f);
        vstd::arithmetic::div_mod::lemma_small_mod((f - rm) as nat, f as nat);
    }
}

} // verus!
