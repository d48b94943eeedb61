//! Fixed-point units and the integer helpers shared by the tilings.

use vstd::prelude::*;
use vstd::arithmetic::div_mod::lemma_fundamental_div_mod;
use vstd::arithmetic::div_mod::lemma_fundamental_div_mod_converse;

verus! {

/// Ticks in one world unit (and, for screen quantities, in one pixel).
pub const UNIT: i64 = 10_000_000;

/// Half a world unit, in ticks.
pub const HALF_UNIT: i64 = 5_000_000;

/// How far `v` is from zero.
pub open spec fn distance(v: int) -> int {
    if v < 0 {
        -v
    } else {
        v
    }
}

/// `v` brought into the range of `i32`.
pub open spec fn saturated_i32(v: int) -> i32 {
    if v < i32::MIN as int {
        i32::MIN
    } else if v > i32::MAX as int {
        i32::MAX
    } else {
        v as i32
    }
}

/// `v` brought into the range of `i64`.
pub open spec fn saturated_i64(v: int) -> i64 {
    if v < i64::MIN as int {
        i64::MIN
    } else if v > i64::MAX as int {
        i64::MAX
    } else {
        v as i64
    }
}

/// Clamps a wide integer to `i32`.
pub fn saturate_i32(v: i128) -> (r: i32)
    ensures
        r == saturated_i32(v as int),
{
    if v < -2_147_483_648i128 {
        i32::MIN
    } else if v > 2_147_483_647i128 {
        i32::MAX
    } else {
        v as i32
    }
}

/// Clamps a wide integer to `i64`.
pub fn saturate_i64(v: i128) -> (r: i64)
    ensures
        r == saturated_i64(v as int),
{
    if v < -9_223_372_036_854_775_808i128 {
        i64::MIN
    } else if v > 9_223_372_036_854_775_807i128 {
        i64::MAX
    } else {
        v as i64
    }
}

/// Quotient of `a` by a positive `b`, rounded towards negative infinity.
pub fn floor_div(a: i128, b: i128) -> (q: i128)
    requires
        b > 0,
        a > i128::MIN,
    ensures
        q == a as int / b as int,
{
    if a >= 0 {
        a / b
    } else {
        let n: i128 = -a;
        let whole: i128 = n / b;
        let rest: i128 = n % b;
        proof {
            lemma_fundamental_div_mod(n as int, b as int);
        }
        if rest == 0 {
            proof {
                assert(a as int == (-(whole as int)) * (b as int) + 0) by (nonlinear_arith)
                    requires
                        n as int == b as int * whole as int,
                        a as int == -(n as int),
                ;
                lemma_fundamental_div_mod_converse(a as int, b as int, -(whole as int), 0);
            }
            -whole
        } else {
            proof {
                assert(a as int == (-(whole as int) - 1) * (b as int) + (b as int - rest as int))
                    by (nonlinear_arith)
                    requires
                        n as int == b as int * whole as int + rest as int,
                        a as int == -(n as int),
                ;
                lemma_fundamental_div_mod_converse(
                    a as int,
                    b as int,
                    -(whole as int) - 1,
                    b as int - rest as int,
                );
            }
            -whole - 1
        }
    }
}

/// Whether `v` is even, for negative values too.
pub fn is_even(v: i128) -> (even: bool)
    requires
        v > i128::MIN,
    ensures
        even == (v as int % 2 == 0),
{
    let half: i128 = floor_div(v, 2);
    v - half == half
}

} // verus!
