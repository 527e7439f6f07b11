//! Ranging, accelerometer and smoothing logic for the DWM3001CDK board.
use vstd::prelude::*;

pub mod accel;
pub mod ema;
pub mod ultrawideband;

verus! {

/// Division truncating toward zero by a positive divisor, as integer
/// division does on signed machine integers.
pub open spec fn trunc_div(a: int, d: int) -> int
    recommends
        d > 0,
{
    if a >= 0 {
        a / d
    } else {
        -((-a) / d)
    }
}


/// Truncating division by a positive divisor preserves order.
pub proof fn lemma_trunc_div_monotonic(a: int, b: int, d: int)
    requires
        a <= b,
        d > 0,
    ensures
        trunc_div(a, d) <= trunc_div(b, d),
{
    if a >= 0 {
        vstd::arithmetic::div_mod::lemma_div_is_ordered(a, b, d);
    } else if b < 0 {
        vstd::arithmetic::div_mod::lemma_div_is_ordered(-b, -a, d);
    } else {
        vstd::arithmetic::div_mod::lemma_div_pos_is_pos(-a, d);
        vstd::arithmetic::div_mod::lemma_div_pos_is_pos(b, d);
    }
}

/// Truncating division is odd: negating the dividend negates the quotient.
pub proof fn lemma_trunc_div_odd(a: int, d: int)
    requires
        d > 0,
    ensures
        trunc_div(-a, d) == -trunc_div(a, d),
{
    if a == 0 {
        assert(0int / d == 0) by {
            vstd::arithmetic::div_mod::lemma_div_of0(d);
        }
    }
}


/// Truncating division by a positive divisor is the quotient rounded toward
/// zero: `d * q <= a < d * (q + 1)` for a non-negative dividend, and the
/// mirror image for a negative one.
pub proof fn lemma_trunc_div_bounds(a: int, d: int)
    requires
        d > 0,
    ensures
        a >= 0 ==> 0 <= trunc_div(a, d) && d * trunc_div(a, d) <= a < d * (trunc_div(a, d) + 1),
        a < 0 ==> trunc_div(a, d) <= 0 && d * (-trunc_div(a, d)) <= -a < d * (-trunc_div(a, d)
            + 1),
{
    let b = if a >= 0 { a } else { -a };
    let q = b / d;
    vstd::arithmetic::div_mod::lemma_fundamental_div_mod(b, d);
    vstd::arithmetic::div_mod::lemma_mod_bound(b, d);
    vstd::arithmetic::div_mod::lemma_div_pos_is_pos(b, d);
    assert(d * (q + 1) == d * q + d) by (nonlinear_arith);
}

} // verus!
