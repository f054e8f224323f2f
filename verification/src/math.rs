//! Truncating integer division, the semantics of `/` on the executable
//! signed integer types.
//!
//! Spec-level `/` on `int` is Euclidean and disagrees with the executable
//! operator on negative dividends, so the pricing formulas are specified
//! through [`div_trunc`] instead.

use vstd::prelude::*;
use vstd::arithmetic::div_mod::{
    lemma_basic_div, lemma_div_non_zero, lemma_div_nonincreasing, lemma_div_of0,
    lemma_div_pos_is_pos,
};
use vstd::math::abs;

verus! {

/// Integer division truncating toward zero, defined for `b != 0`. This is
/// what `a / b` computes on `i128` in executable code.
pub open spec fn div_trunc(a: int, b: int) -> int {
    if a == 0 {
        0
    } else if a > 0 && b > 0 {
        a / b
    } else if a < 0 && b < 0 {
        (a * -1) / (b * -1)
    } else if a < 0 {
        ((a * -1) / b) * -1
    } else {
        (a / (b * -1)) * -1
    }
}

/// The magnitude of a truncating quotient is the quotient of the
/// magnitudes; in particular it never exceeds the dividend's magnitude.
pub proof fn lemma_div_trunc_abs(a: int, b: int)
    requires
        b != 0,
    ensures
        abs(div_trunc(a, b)) == abs(a) / abs(b),
        abs(div_trunc(a, b)) <= abs(a),
{
    if a == 0 {
        lemma_div_of0(abs(b) as int);
    } else if a > 0 && b > 0 {
        lemma_div_pos_is_pos(a, b);
    } else if a < 0 && b < 0 {
        lemma_div_pos_is_pos(a * -1, b * -1);
    } else if a < 0 {
        lemma_div_pos_is_pos(a * -1, b);
    } else {
        lemma_div_pos_is_pos(a, b * -1);
    }
    lemma_div_nonincreasing(abs(a) as int, abs(b) as int);
}

/// How the sign of a truncating quotient follows the sign of the dividend,
/// for a positive divisor. The quotient reaches `1` exactly when the
/// dividend reaches the divisor; below that it truncates to `0`.
pub proof fn lemma_div_trunc_sign(a: int, b: int)
    requires
        b > 0,
    ensures
        a >= b ==> div_trunc(a, b) >= 1,
        a >= 0 ==> div_trunc(a, b) >= 0,
        a <= 0 ==> div_trunc(a, b) <= 0,
        0 <= a < b ==> div_trunc(a, b) == 0,
{
    if a >= b {
        lemma_div_non_zero(a, b);
    }
    if a > 0 {
        lemma_div_pos_is_pos(a, b);
    }
    if a < 0 {
        lemma_div_pos_is_pos(a * -1, b);
    }
    if 0 <= a < b {
        lemma_basic_div(a, b);
    }
}

} // verus!
