//! Fixed-point scalars and vectors.
//!
//! A scalar `v: i64` stands for the real number `v / SCALE`.  Multiplication
//! of two fixed-point scalars therefore divides the wide product back down by
//! `SCALE`, truncating toward zero (the spec function `tdiv` below).  All
//! geometry is done on `Vector3`, a triple of fixed-point scalars.

use vstd::prelude::*;

verus! {

use vstd::arithmetic::div_mod::{lemma_div_is_ordered, lemma_div_pos_is_pos,
    lemma_div_nonincreasing, lemma_div_multiples_vanish};

/// One whole unit (1.0 in the original real-valued model).
pub const SCALE: i64 = 1000;

/// Largest magnitude a position or force coordinate may reach before the
/// simulation refuses to step (about 10^12 world units).
pub const MAX_ABS_POS: i64 = 1_000_000_000_000_000;

/// Largest magnitude of the avatar's forward speed (about 10^6 units/s).
pub const MAX_ABS_SPEED: i64 = 1_000_000_000;

/// Largest magnitude of an opposing-force coordinate.
pub const MAX_ABS_FORCE: i64 = 1_000_000_000_000;

/// Largest per-frame elapsed time (1000 simulated seconds).
pub const MAX_DT: i64 = 1_000_000;

/// Largest magnitude of a forward-direction coordinate.  A unit direction
/// vector keeps every coordinate within `SCALE`; the slack tolerates the
/// rounding of repeated fixed-point rotations.
pub const MAX_ABS_DIR: i64 = 2 * SCALE;

/// Division truncating toward zero, the rounding used by every fixed-point
/// product (ghost `/` alone rounds toward negative infinity).
pub open spec fn tdiv(x: int, d: int) -> int
    recommends
        d > 0,
{
    if x >= 0 {
        x / d
    } else {
        -((-x) / d)
    }
}

/// The fixed-point product of `a` and `b`.
pub open spec fn fx_mul_spec(a: int, b: int) -> int {
    tdiv(a * b, SCALE as int)
}

/// Truncating division never grows a bound: `|x| <= b` gives
/// `|tdiv(x, d)| <= b / d <= b`.
pub proof fn lemma_tdiv_bound(x: int, b: int, d: int)
    requires
        d > 0,
        0 <= b,
        -b <= x <= b,
    ensures
        -(b / d) <= tdiv(x, d) <= b / d,
        b / d <= b,
{
    if x >= 0 {
        lemma_div_is_ordered(x, b, d);
        lemma_div_pos_is_pos(x, d);
    } else {
        lemma_div_is_ordered(-x, b, d);
        lemma_div_pos_is_pos(-x, d);
    }
    lemma_div_pos_is_pos(b, d);
    lemma_div_nonincreasing(b, d);
}

/// Truncating division keeps the sign of the dividend.
pub proof fn lemma_tdiv_sign(x: int, d: int)
    requires
        d > 0,
    ensures
        x >= 0 ==> tdiv(x, d) >= 0,
        x <= 0 ==> tdiv(x, d) <= 0,
{
    if x >= 0 {
        lemma_div_pos_is_pos(x, d);
    } else {
        lemma_div_pos_is_pos(-x, d);
    }
}

/// Truncating division is exact on multiples: `tdiv(x * d, d) == x`.
pub proof fn lemma_tdiv_exact(x: int, d: int)
    requires
        d > 0,
    ensures
        tdiv(x * d, d) == x,
{
    assert(x * d == d * x) by (nonlinear_arith);
    if x >= 0 {
        assert(x * d >= 0) by (nonlinear_arith)
            requires
                x >= 0,
                d > 0,
        ;
        lemma_div_multiples_vanish(x, d);
    } else {
        assert(x * d < 0) by (nonlinear_arith)
            requires
                x < 0,
                d > 0,
        ;
        assert(-(x * d) == d * (-x)) by (nonlinear_arith);
        lemma_div_multiples_vanish(-x, d);
    }
}

/// Truncating division is monotone on non-negative dividends.
pub proof fn lemma_tdiv_ordered(x: int, y: int, d: int)
    requires
        d > 0,
        0 <= x <= y,
    ensures
        tdiv(x, d) <= tdiv(y, d),
{
    lemma_div_is_ordered(x, y, d);
}

/// Fixed-point multiplication.  The result is the wide product of the two
/// scalars scaled back down, truncated toward zero; the precondition is
/// exactly the requirement that this value fits in an `i64`.
pub fn fx_mul(a: i64, b: i64) -> (r: i64)
    requires
        -(i64::MAX as int) <= fx_mul_spec(a as int, b as int) <= i64::MAX as int,
    ensures
        r as int == fx_mul_spec(a as int, b as int),
{
    let neg: bool = (a < 0) != (b < 0);
    let am: u64 = if a < 0 {
        (-(a as i128)) as u64
    } else {
        a as u64
    };
    let bm: u64 = if b < 0 {
        (-(b as i128)) as u64
    } else {
        b as u64
    };
    proof {
        assert(am as int * bm as int <= 0x40000000000000000000000000000000) by (nonlinear_arith)
            requires
                0 <= am as int <= 0x8000000000000000,
                0 <= bm as int <= 0x8000000000000000,
        ;
    }
    let prod: u128 = (am as u128) * (bm as u128);
    let q: u128 = prod / (SCALE as u128);
    let ghost p: int = a as int * b as int;
    proof {
        assert(prod == if p >= 0 { p } else { -p }) by (nonlinear_arith)
            requires
                am == if a < 0 { -(a as int) } else { a as int },
                bm == if b < 0 { -(b as int) } else { b as int },
                prod == am as int * bm as int,
                p == a as int * b as int,
        ;
        assert(((a < 0) != (b < 0)) ==> p <= 0) by (nonlinear_arith)
            requires
                p == a as int * b as int,
        ;
        if p >= 0 {
            assert(q == tdiv(p, SCALE as int));
        } else {
            assert(q == -tdiv(p, SCALE as int));
        }
    }
    if neg && q > 0 {
        proof {
            // both factors cannot have the same sign here, so the product is
            // negative: were it zero, the quotient would be zero too.
            assert(p < 0);
        }
        -(q as i64)
    } else {
        proof {
            if q > 0 {
                // the factors have the same sign here, so the product is
                // non-negative and the quotient is exactly the result.
                assert(((a < 0) == (b < 0)) ==> p >= 0) by (nonlinear_arith)
                    requires
                        p == a as int * b as int,
                ;
            }
        }
        q as i64
    }
}

/// Bounds on the factors bound a fixed-point product.
pub proof fn lemma_fx_mul_bound(a: int, b: int, bound_a: int, bound_b: int)
    requires
        0 <= bound_a,
        0 <= bound_b,
        -bound_a <= a <= bound_a,
        -bound_b <= b <= bound_b,
    ensures
        -((bound_a * bound_b) / (SCALE as int)) <= fx_mul_spec(a, b) <= (bound_a * bound_b) / (
        SCALE as int),
{
    assert(-(bound_a * bound_b) <= a * b <= bound_a * bound_b) by (nonlinear_arith)
        requires
            0 <= bound_a,
            0 <= bound_b,
            -bound_a <= a <= bound_a,
            -bound_b <= b <= bound_b,
    ;
    lemma_tdiv_bound(a * b, bound_a * bound_b, SCALE as int);
}

/// A point or displacement in world space, one fixed-point scalar per axis.
/// `y` points up; the ground plane is spanned by `x` and `z`.
#[derive(Clone, Copy, Debug, PartialEq, Eq, Structural)]
pub struct Vector3 {
    pub x: i64,
    pub y: i64,
    pub z: i64,
}

/// The square of `x`.
pub open spec fn sq(x: int) -> int {
    x * x
}

/// Squares of bounded values are non-negative and bounded.
pub proof fn lemma_sq_bound(x: int, b: int)
    requires
        0 <= b,
        -b <= x <= b,
    ensures
        0 <= sq(x) <= b * b,
{
    assert(0 <= x * x <= b * b) by (nonlinear_arith)
        requires
            -b <= x <= b,
    ;
}

/// Squared magnitudes order absolute values: inside a squared radius means
/// inside the radius on each axis.
pub proof fn lemma_sq_within(x: int, b: int)
    requires
        0 <= b,
        sq(x) < sq(b),
    ensures
        -b < x < b,
{
    assert(x * x < b * b ==> -b < x < b) by (nonlinear_arith)
        requires
            0 <= b,
    ;
}

impl Vector3 {
    /// The zero vector.
    pub fn zero() -> (v: Vector3)
        ensures
            v == (Vector3 { x: 0, y: 0, z: 0 }),
    {
        Vector3 { x: 0, y: 0, z: 0 }
    }

    /// Squared full three-dimensional distance to `other`.
    pub open spec fn dist2_xyz(self, other: Vector3) -> int {
        sq(self.x - other.x) + sq(self.y - other.y) + sq(self.z - other.z)
    }

    /// Squared distance to `other` once both are projected onto the ground
    /// plane (the `y` coordinates are ignored).
    pub open spec fn dist2_xz(self, other: Vector3) -> int {
        sq(self.x - other.x) + sq(self.z - other.z)
    }

    /// Componentwise sum.
    pub fn plus(self, other: Vector3) -> (v: Vector3)
        requires
            i64::MIN <= self.x + other.x <= i64::MAX,
            i64::MIN <= self.y + other.y <= i64::MAX,
            i64::MIN <= self.z + other.z <= i64::MAX,
        ensures
            v.x == self.x + other.x,
            v.y == self.y + other.y,
            v.z == self.z + other.z,
    {
        Vector3 { x: self.x + other.x, y: self.y + other.y, z: self.z + other.z }
    }

    /// Componentwise difference.
    pub fn minus(self, other: Vector3) -> (v: Vector3)
        requires
            i64::MIN <= self.x - other.x <= i64::MAX,
            i64::MIN <= self.y - other.y <= i64::MAX,
            i64::MIN <= self.z - other.z <= i64::MAX,
        ensures
            v.x == self.x - other.x,
            v.y == self.y - other.y,
            v.z == self.z - other.z,
    {
        Vector3 { x: self.x - other.x, y: self.y - other.y, z: self.z - other.z }
    }

    /// Whether `self` lies strictly closer than `radius` to `other` in full
    /// three-dimensional space, decided exactly on squared distances.
    pub fn within_xyz(self, other: Vector3, radius: i64) -> (r: bool)
        requires
            -MAX_ABS_POS <= self.x <= MAX_ABS_POS,
            -MAX_ABS_POS <= self.y <= MAX_ABS_POS,
            -MAX_ABS_POS <= self.z <= MAX_ABS_POS,
            -MAX_ABS_POS <= other.x <= MAX_ABS_POS,
            -MAX_ABS_POS <= other.y <= MAX_ABS_POS,
            -MAX_ABS_POS <= other.z <= MAX_ABS_POS,
            0 <= radius <= MAX_ABS_POS,
        ensures
            r == (self.dist2_xyz(other) < sq(radius as int)),
    {
        let dx: i128 = self.x as i128 - other.x as i128;
        let dy: i128 = self.y as i128 - other.y as i128;
        let dz: i128 = self.z as i128 - other.z as i128;
        proof {
            lemma_sq_bound(dx as int, 2 * MAX_ABS_POS as int);
            lemma_sq_bound(dy as int, 2 * MAX_ABS_POS as int);
            lemma_sq_bound(dz as int, 2 * MAX_ABS_POS as int);
            lemma_sq_bound(radius as int, MAX_ABS_POS as int);
        }
        let d2: i128 = dx * dx + dy * dy + dz * dz;
        d2 < (radius as i128) * (radius as i128)
    }

    /// Whether `self` lies strictly closer than `radius` to `other` once both
    /// are projected onto the ground plane.
    pub fn within_xz(self, other: Vector3, radius: i64) -> (r: bool)
        requires
            -MAX_ABS_POS <= self.x <= MAX_ABS_POS,
            -MAX_ABS_POS <= self.z <= MAX_ABS_POS,
            -MAX_ABS_POS <= other.x <= MAX_ABS_POS,
            -MAX_ABS_POS <= other.z <= MAX_ABS_POS,
            0 <= radius <= MAX_ABS_POS,
        ensures
            r == (self.dist2_xz(other) < sq(radius as int)),
    {
        let dx: i128 = self.x as i128 - other.x as i128;
        let dz: i128 = self.z as i128 - other.z as i128;
        proof {
            lemma_sq_bound(dx as int, 2 * MAX_ABS_POS as int);
            lemma_sq_bound(dz as int, 2 * MAX_ABS_POS as int);
            lemma_sq_bound(radius as int, MAX_ABS_POS as int);
        }
        let d2: i128 = dx * dx + dz * dz;
        d2 < (radius as i128) * (radius as i128)
    }

    /// The vector turned about the vertical axis, given the fixed-point
    /// cosine and sine of the (signed) turn angle.
    pub open spec fn rotate_y_spec(self, cos_fx: i64, sin_fx: i64) -> Vector3 {
        Vector3 {
            x: (fx_mul_spec(self.x as int, cos_fx as int) + fx_mul_spec(
                self.z as int,
                sin_fx as int,
            )) as i64,
            y: self.y,
            z: (fx_mul_spec(self.z as int, cos_fx as int) - fx_mul_spec(
                self.x as int,
                sin_fx as int,
            )) as i64,
        }
    }

    /// Turn the vector about the vertical axis by the angle whose fixed-point
    /// cosine and sine are given.  The horizontal coordinates of the result
    /// stay within the sum of the input's horizontal magnitudes.
    pub fn rotate_y(self, cos_fx: i64, sin_fx: i64) -> (v: Vector3)
        requires
            -MAX_ABS_DIR <= self.x <= MAX_ABS_DIR,
            -MAX_ABS_DIR <= self.z <= MAX_ABS_DIR,
            -SCALE <= cos_fx <= SCALE,
            -SCALE <= sin_fx <= SCALE,
        ensures
            v == self.rotate_y_spec(cos_fx, sin_fx),
            -2 * MAX_ABS_DIR <= v.x <= 2 * MAX_ABS_DIR,
            -2 * MAX_ABS_DIR <= v.z <= 2 * MAX_ABS_DIR,
            v.y == self.y,
    {
        proof {
            lemma_fx_mul_bound(self.x as int, cos_fx as int, MAX_ABS_DIR as int, SCALE as int);
            lemma_fx_mul_bound(self.z as int, sin_fx as int, MAX_ABS_DIR as int, SCALE as int);
            lemma_fx_mul_bound(self.z as int, cos_fx as int, MAX_ABS_DIR as int, SCALE as int);
            lemma_fx_mul_bound(self.x as int, sin_fx as int, MAX_ABS_DIR as int, SCALE as int);
        }
        Vector3 {
            x: fx_mul(self.x, cos_fx) + fx_mul(self.z, sin_fx),
            y: self.y,
            z: fx_mul(self.z, cos_fx) - fx_mul(self.x, sin_fx),
        }
    }

    /// The vector scaled by the fixed-point factor `k`.
    pub fn scale_fx(self, k: i64) -> (v: Vector3)
        requires
            -(i64::MAX as int) <= fx_mul_spec(self.x as int, k as int) <= i64::MAX as int,
            -(i64::MAX as int) <= fx_mul_spec(self.y as int, k as int) <= i64::MAX as int,
            -(i64::MAX as int) <= fx_mul_spec(self.z as int, k as int) <= i64::MAX as int,
        ensures
            v.x as int == fx_mul_spec(self.x as int, k as int),
            v.y as int == fx_mul_spec(self.y as int, k as int),
            v.z as int == fx_mul_spec(self.z as int, k as int),
    {
        Vector3 { x: fx_mul(self.x, k), y: fx_mul(self.y, k), z: fx_mul(self.z, k) }
    }
}

} // verus!
