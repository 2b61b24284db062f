//! Heading arithmetic in milli-degrees and a fixed-point sine/cosine.
//!
//! A heading is an angle in milli-degrees, kept in `[0, FULL_TURN_MDEG)` and
//! measured counter-clockwise from the positive x axis. Unit vectors are
//! scaled by `UNIT_MILLI`, so a component lies in `[-UNIT_MILLI, UNIT_MILLI]`.
//! The sine uses a rational approximation that is exact at every multiple of
//! a quarter turn and stays within the unit bound everywhere.

use vstd::prelude::*;
use vstd::arithmetic::div_mod::{
    lemma_fundamental_div_mod,
    lemma_fundamental_div_mod_converse,
    lemma_mod_multiples_basic,
    lemma_small_mod,
    lemma_div_is_ordered,
    lemma_div_by_multiple,
    lemma_div_pos_is_pos,
};

verus! {

/// Milli-degrees in a full turn.
pub const FULL_TURN_MDEG: i64 = 360_000;

/// Milli-degrees in a half turn.
pub const HALF_TURN_MDEG: i64 = 180_000;

/// Milli-degrees in a quarter turn.
pub const QUARTER_TURN_MDEG: i64 = 90_000;

/// Fixed-point scale of a unit vector component.
pub const UNIT_MILLI: i64 = 1000;

/// An angle reduced to the canonical heading range `[0, FULL_TURN_MDEG)`.
pub open spec fn norm_mdeg(a: int) -> int {
    a % (FULL_TURN_MDEG as int)
}

/// Truncating division, the semantics of `/` on machine integers,
/// for a positive divisor.
pub open spec fn div_trunc(a: int, b: int) -> int {
    if a >= 0 {
        a / b
    } else {
        -((-a) / b)
    }
}

/// Reduces any angle to the canonical heading range.
pub fn normalize_mdeg(a: i64) -> (r: i64)
    requires
        i64::MIN < a,
    ensures
        r == norm_mdeg(a as int),
        0 <= r < FULL_TURN_MDEG,
{
    let m = a % FULL_TURN_MDEG;
    if m < 0 {
        proof {
            let s = (-(a as int)) % (FULL_TURN_MDEG as int);
            lemma_fundamental_div_mod(-(a as int), FULL_TURN_MDEG as int);
            let q = (-(a as int)) / (FULL_TURN_MDEG as int);
            lemma_fundamental_div_mod_converse(
                a as int,
                FULL_TURN_MDEG as int,
                -q - 1,
                (FULL_TURN_MDEG as int) - s,
            );
        }
        m + FULL_TURN_MDEG
    } else {
        proof {
            if a >= 0 {
                lemma_small_mod((a as int % (FULL_TURN_MDEG as int)) as nat, FULL_TURN_MDEG as nat);
            } else {
                let s = (-(a as int)) % (FULL_TURN_MDEG as int);
                lemma_fundamental_div_mod(-(a as int), FULL_TURN_MDEG as int);
                let q = (-(a as int)) / (FULL_TURN_MDEG as int);
                lemma_mod_multiples_basic(-q, FULL_TURN_MDEG as int);
            }
        }
        m
    }
}

/// Fixed-point sine over a half turn: exact at `0`, `QUARTER_TURN_MDEG`
/// and `HALF_TURN_MDEG`, and within `[0, UNIT_MILLI]` throughout.
pub open spec fn sin_halfturn_milli(x: int) -> int {
    (4000 * (x * (180_000 - x))) / (40_500_000_000 - x * (180_000 - x))
}

/// Fixed-point sine of a canonical heading.
pub open spec fn sin_milli(a: int) -> int {
    if a < HALF_TURN_MDEG {
        sin_halfturn_milli(a)
    } else {
        -sin_halfturn_milli(a - HALF_TURN_MDEG)
    }
}

/// Fixed-point cosine of a canonical heading.
pub open spec fn cos_milli(a: int) -> int {
    sin_milli(norm_mdeg(a + QUARTER_TURN_MDEG))
}

proof fn lemma_halfturn_product_bounds(x: int)
    requires
        0 <= x <= HALF_TURN_MDEG,
    ensures
        0 <= x * (180_000 - x) <= 8_100_000_000,
{
    assert(0 <= x * (180_000 - x) <= 8_100_000_000) by (nonlinear_arith)
        requires
            0 <= x <= 180_000,
    ;
}

proof fn lemma_sin_halfturn_bounds(x: int)
    requires
        0 <= x <= HALF_TURN_MDEG,
    ensures
        0 <= sin_halfturn_milli(x) <= UNIT_MILLI,
{
    lemma_halfturn_product_bounds(x);
    let u = x * (180_000 - x);
    let num = 4000 * u;
    let den = 40_500_000_000 - u;
    assert(num <= 1000 * den);
    lemma_div_is_ordered(num, 1000 * den, den);
    lemma_div_by_multiple(1000, den);
    lemma_div_pos_is_pos(num, den);
}

/// The sine of any canonical heading is a fixed-point unit component.
pub proof fn lemma_sin_milli_bounds(a: int)
    requires
        0 <= a < FULL_TURN_MDEG,
    ensures
        -UNIT_MILLI <= sin_milli(a) <= UNIT_MILLI,
{
    if a < HALF_TURN_MDEG {
        lemma_sin_halfturn_bounds(a);
    } else {
        lemma_sin_halfturn_bounds(a - HALF_TURN_MDEG);
    }
}

/// The cosine of any canonical heading is a fixed-point unit component.
pub proof fn lemma_cos_milli_bounds(a: int)
    requires
        0 <= a < FULL_TURN_MDEG,
    ensures
        -UNIT_MILLI <= cos_milli(a) <= UNIT_MILLI,
{
    vstd::arithmetic::div_mod::lemma_mod_bound(
        a + QUARTER_TURN_MDEG,
        FULL_TURN_MDEG as int,
    );
    lemma_sin_milli_bounds(norm_mdeg(a + QUARTER_TURN_MDEG));
}

fn sin_halfturn(x: i64) -> (r: i64)
    requires
        0 <= x <= HALF_TURN_MDEG,
    ensures
        r == sin_halfturn_milli(x as int),
        0 <= r <= UNIT_MILLI,
{
    proof {
        lemma_halfturn_product_bounds(x as int);
        lemma_sin_halfturn_bounds(x as int);
    }
    let u = x * (HALF_TURN_MDEG - x);
    let num = 4000 * u;
    let den = 40_500_000_000 - u;
    num / den
}

/// Fixed-point sine of a canonical heading.
pub fn sin_mdeg(a: i64) -> (r: i64)
    requires
        0 <= a < FULL_TURN_MDEG,
    ensures
        r == sin_milli(a as int),
        -UNIT_MILLI <= r <= UNIT_MILLI,
{
    if a < HALF_TURN_MDEG {
        sin_halfturn(a)
    } else {
        -sin_halfturn(a - HALF_TURN_MDEG)
    }
}

/// Fixed-point cosine of a canonical heading.
pub fn cos_mdeg(a: i64) -> (r: i64)
    requires
        0 <= a < FULL_TURN_MDEG,
    ensures
        r == cos_milli(a as int),
        -UNIT_MILLI <= r <= UNIT_MILLI,
{
    let b = if a + QUARTER_TURN_MDEG >= FULL_TURN_MDEG {
        proof {
            lemma_fundamental_div_mod_converse(
                a + QUARTER_TURN_MDEG,
                FULL_TURN_MDEG as int,
                1,
                a + QUARTER_TURN_MDEG - FULL_TURN_MDEG,
            );
        }
        a + QUARTER_TURN_MDEG - FULL_TURN_MDEG
    } else {
        proof {
            lemma_small_mod((a + QUARTER_TURN_MDEG) as nat, FULL_TURN_MDEG as nat);
        }
        a + QUARTER_TURN_MDEG
    };
    sin_mdeg(b)
}

/// Fixed-point quotient angle within one octant: for `0 <= a <= b`,
/// `b > 0`, the angle in milli-degrees whose tangent is roughly `a / b`,
/// linearly interpolated across the octant.
pub open spec fn oct_mdeg(a: int, b: int) -> int {
    (45_000 * a) / b
}

/// The octant interpolation stays within its octant.
pub proof fn lemma_oct_mdeg_bounds(a: int, b: int)
    requires
        0 <= a <= b,
        0 < b,
    ensures
        0 <= oct_mdeg(a, b) <= 45_000,
{
    lemma_div_pos_is_pos(45_000 * a, b);
    assert(45_000 * a <= 45_000 * b) by (nonlinear_arith)
        requires
            a <= b,
            0 < b,
    ;
    lemma_div_is_ordered(45_000 * a, 45_000 * b, b);
    lemma_div_by_multiple(45_000, b);
}

/// Approximate heading of the vector `(dx, dy)`, in canonical
/// milli-degrees: exact on the four axes and linearly interpolated within
/// each octant, so a heading very close to an octant edge may round onto
/// it; the zero vector maps to zero.
pub open spec fn atan2_mdeg(dy: int, dx: int) -> int {
    if dx == 0 && dy == 0 {
        0
    } else if dy >= 0 && dx > 0 && dy <= dx {
        oct_mdeg(dy, dx)
    } else if dy > 0 && dx >= 0 {
        90_000 - oct_mdeg(dx, dy)
    } else if dy > 0 && dx < 0 && -dx <= dy {
        90_000 + oct_mdeg(-dx, dy)
    } else if dx < 0 && dy >= 0 {
        180_000 - oct_mdeg(dy, -dx)
    } else if dx < 0 && dy < 0 && -dy <= -dx {
        180_000 + oct_mdeg(-dy, -dx)
    } else if dy < 0 && dx <= 0 {
        270_000 - oct_mdeg(-dx, -dy)
    } else if dy < 0 && dx > 0 && dx <= -dy {
        270_000 + oct_mdeg(dx, -dy)
    } else {
        let a = oct_mdeg(-dy, dx);
        if a == 0 {
            0
        } else {
            360_000 - a
        }
    }
}

/// The approximate heading is canonical.
pub proof fn lemma_atan2_mdeg_bounds(dy: int, dx: int)
    ensures
        0 <= atan2_mdeg(dy, dx) < 360_000,
{
    if dx == 0 && dy == 0 {
    } else if dy >= 0 && dx > 0 && dy <= dx {
        lemma_oct_mdeg_bounds(dy, dx);
    } else if dy > 0 && dx >= 0 {
        lemma_oct_mdeg_bounds(dx, dy);
    } else if dy > 0 && dx < 0 && -dx <= dy {
        lemma_oct_mdeg_bounds(-dx, dy);
    } else if dx < 0 && dy >= 0 {
        lemma_oct_mdeg_bounds(dy, -dx);
    } else if dx < 0 && dy < 0 && -dy <= -dx {
        lemma_oct_mdeg_bounds(-dy, -dx);
    } else if dy < 0 && dx <= 0 {
        lemma_oct_mdeg_bounds(-dx, -dy);
    } else if dy < 0 && dx > 0 && dx <= -dy {
        lemma_oct_mdeg_bounds(dx, -dy);
    } else {
        lemma_oct_mdeg_bounds(-dy, dx);
    }
}

/// Computes the approximate heading of the vector `(dx, dy)`.
pub fn heading_mdeg(dy: i64, dx: i64) -> (r: i64)
    requires
        -2_000_000_000_000 <= dy <= 2_000_000_000_000,
        -2_000_000_000_000 <= dx <= 2_000_000_000_000,
    ensures
        r == atan2_mdeg(dy as int, dx as int),
        0 <= r < FULL_TURN_MDEG,
{
    proof {
        lemma_atan2_mdeg_bounds(dy as int, dx as int);
    }
    if dx == 0 && dy == 0 {
        0
    } else if dy >= 0 && dx > 0 && dy <= dx {
        proof { lemma_oct_mdeg_bounds(dy as int, dx as int); }
        (45_000 * dy) / dx
    } else if dy > 0 && dx >= 0 {
        proof { lemma_oct_mdeg_bounds(dx as int, dy as int); }
        90_000 - (45_000 * dx) / dy
    } else if dy > 0 && dx < 0 && -dx <= dy {
        proof { lemma_oct_mdeg_bounds(-dx as int, dy as int); }
        90_000 + (45_000 * (-dx)) / dy
    } else if dx < 0 && dy >= 0 {
        proof { lemma_oct_mdeg_bounds(dy as int, -dx as int); }
        180_000 - (45_000 * dy) / (-dx)
    } else if dx < 0 && dy < 0 && -dy <= -dx {
        proof { lemma_oct_mdeg_bounds(-dy as int, -dx as int); }
        180_000 + (45_000 * (-dy)) / (-dx)
    } else if dy < 0 && dx <= 0 {
        proof { lemma_oct_mdeg_bounds(-dx as int, -dy as int); }
        270_000 - (45_000 * (-dx)) / (-dy)
    } else if dy < 0 && dx > 0 && dx <= -dy {
        proof { lemma_oct_mdeg_bounds(dx as int, -dy as int); }
        270_000 + (45_000 * dx) / (-dy)
    } else {
        proof { lemma_oct_mdeg_bounds(-dy as int, dx as int); }
        let a = (45_000 * (-dy)) / dx;
        if a == 0 {
            0
        } else {
            360_000 - a
        }
    }
}

} // verus!
