//! Range remapping, used when laying fixtures out on a grid: an affine map
//! sending `[in_min, in_max]` onto `[out_min, out_max]`.

use vstd::prelude::*;

verus! {

use crate::fixed::{tdiv, MAX_ABS_POS};

/// Division truncating toward zero for any non-zero divisor.
pub open spec fn div_trunc(x: int, d: int) -> int
    recommends
        d != 0,
{
    if d > 0 {
        tdiv(x, d)
    } else {
        -tdiv(x, -d)
    }
}

/// Where `val` lands when `[in_min, in_max]` is mapped affinely onto
/// `[out_min, out_max]`: `out_min` plus the span travelled, with the one
/// division truncated toward zero.
pub open spec fn map_range_spec(
    val: int,
    in_min: int,
    in_max: int,
    out_min: int,
    out_max: int,
) -> int
    recommends
        in_max != in_min,
{
    out_min + div_trunc((val - in_min) * (out_max - out_min), in_max - in_min)
}

/// Map `val` from the range `[in_min, in_max]` to the range
/// `[out_min, out_max]`.  The two range bounds may each be given in either
/// order; only a degenerate input range is refused.  The preconditions
/// beyond that are exactly what keeps the arithmetic within `i64`.
pub fn map_range(val: i64, in_min: i64, in_max: i64, out_min: i64, out_max: i64) -> (mapped: i64)
    requires
        in_max != in_min,
        -MAX_ABS_POS <= val <= MAX_ABS_POS,
        -MAX_ABS_POS <= in_min <= MAX_ABS_POS,
        -MAX_ABS_POS <= in_max <= MAX_ABS_POS,
        -MAX_ABS_POS <= out_min <= MAX_ABS_POS,
        -MAX_ABS_POS <= out_max <= MAX_ABS_POS,
        -(i64::MAX as int) <= div_trunc(
            (val - in_min) * (out_max - out_min),
            in_max - in_min,
        ) <= i64::MAX as int,
        i64::MIN <= map_range_spec(
            val as int,
            in_min as int,
            in_max as int,
            out_min as int,
            out_max as int,
        ) <= i64::MAX,
    ensures
        mapped == map_range_spec(
            val as int,
            in_min as int,
            in_max as int,
            out_min as int,
            out_max as int,
        ),
{
    proof {
        assert(-0x10000000000000000000000000000000 <= (val as int - in_min as int) * (out_max
            as int - out_min as int) <= 0x10000000000000000000000000000000) by (nonlinear_arith)
            requires
                -MAX_ABS_POS <= val <= MAX_ABS_POS,
                -MAX_ABS_POS <= in_min <= MAX_ABS_POS,
                -MAX_ABS_POS <= out_min <= MAX_ABS_POS,
                -MAX_ABS_POS <= out_max <= MAX_ABS_POS,
                MAX_ABS_POS == 1_000_000_000_000_000,
        ;
    }
    let numerator: i128 = (val as i128 - in_min as i128) * (out_max as i128 - out_min as i128);
    let divisor: i128 = in_max as i128 - in_min as i128;
    let neg: bool = (numerator < 0) != (divisor < 0);
    let num_mag: u128 = if numerator < 0 {
        (-numerator) as u128
    } else {
        numerator as u128
    };
    let div_mag: u128 = if divisor < 0 {
        (-divisor) as u128
    } else {
        divisor as u128
    };
    let quotient: u128 = num_mag / div_mag;
    let ghost travelled: int = div_trunc(numerator as int, divisor as int);
    proof {
        if divisor > 0 {
            if numerator >= 0 {
                assert(quotient == travelled);
            } else {
                assert(quotient == -travelled);
            }
        } else {
            if numerator >= 0 {
                assert(quotient == -travelled);
            } else {
                assert(quotient == travelled);
            }
        }
        assert(neg ==> quotient == -travelled || travelled == 0);
        assert(!neg ==> quotient == travelled);
    }
    let offset: i64 = if neg && quotient > 0 {
        -(quotient as i64)
    } else {
        quotient as i64
    };
    out_min + offset
}

} // verus!
