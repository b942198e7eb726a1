//! Fixed-width integer arithmetic with the rounding and saturation rules of
//! Rust's `i128` operations, stated over mathematical integers.

use vstd::prelude::*;

verus! {

/// `x` pushed into the range of `i128`: what a saturating operation yields.
pub open spec fn clamp_i128(x: int) -> i128 {
    if x > i128::MAX {
        i128::MAX
    } else if x < i128::MIN {
        i128::MIN
    } else {
        x as i128
    }
}

/// `true` when `x` is a value of `i128`.
pub open spec fn fits_i128(x: int) -> bool {
    i128::MIN <= x <= i128::MAX
}

/// The absolute value of `x`.
pub open spec fn abs(x: int) -> int {
    if x < 0 {
        -x
    } else {
        x
    }
}

/// Division rounded toward zero, as Rust's `/` on signed integers does.
pub open spec fn trunc_div(a: int, b: int) -> int {
    if (a < 0) == (b < 0) {
        abs(a) / abs(b)
    } else {
        -(abs(a) / abs(b))
    }
}

/// `a * b`, saturated to the range of `i128` (Rust's `i128::saturating_mul`).
pub fn saturating_mul(a: i128, b: i128) -> (r: i128)
    ensures
        r == clamp_i128(a * b),
{
    match a.checked_mul(b) {
        Some(p) => p,
        None => {
            if (a < 0) == (b < 0) {
                assert(a * b >= 0) by (nonlinear_arith)
                    requires
                        (a < 0) == (b < 0),
                ;
                i128::MAX
            } else {
                assert(a * b <= 0) by (nonlinear_arith)
                    requires
                        (a < 0) != (b < 0),
                ;
                i128::MIN
            }
        },
    }
}

/// `a - b`, saturated to the range of `i128` (Rust's `i128::saturating_sub`).
pub fn saturating_sub(a: i128, b: i128) -> (r: i128)
    ensures
        r == clamp_i128(a - b),
{
    match a.checked_sub(b) {
        Some(d) => d,
        None => {
            if b < 0 {
                i128::MAX
            } else {
                i128::MIN
            }
        },
    }
}

/// `a + b`, saturated to the range of `i128` (Rust's `i128::saturating_add`).
pub fn saturating_add(a: i128, b: i128) -> (r: i128)
    ensures
        r == clamp_i128(a + b),
{
    match a.checked_add(b) {
        Some(s) => s,
        None => {
            if b > 0 {
                i128::MAX
            } else {
                i128::MIN
            }
        },
    }
}

/// `a / b` rounded toward zero (Rust's `/` on `i128`); the two inputs on
/// which Rust's operator panics are excluded.
pub fn div_toward_zero(a: i128, b: i128) -> (r: i128)
    requires
        b != 0,
        !(a == i128::MIN && b == -1),
    ensures
        r == trunc_div(a as int, b as int),
{
    proof {
        let q = abs(a as int) / abs(b as int);
        vstd::arithmetic::div_mod::lemma_div_is_ordered_by_denominator(abs(a as int), 1, abs(b as int));
        vstd::arithmetic::div_mod::lemma_div_pos_is_pos(abs(a as int), abs(b as int));
        assert(abs(a as int) / 1 == abs(a as int));
        if abs(b as int) == 1 {
            assert(q == abs(a as int));
        } else {
            vstd::arithmetic::div_mod::lemma_div_is_ordered_by_denominator(abs(a as int), 2, abs(b as int));
            assert(q <= abs(a as int) / 2);
            assert(abs(a as int) / 2 * 2 <= abs(a as int)) by {
                vstd::arithmetic::div_mod::lemma_fundamental_div_mod(abs(a as int), 2);
                vstd::arithmetic::div_mod::lemma_mod_pos_bound(abs(a as int), 2);
            }
        }
    }
    // Under the precondition the quotient always fits, so `None` never occurs.
    match a.checked_div(b) {
        Some(q) => q,
        None => 0,
    }
}

} // verus!
