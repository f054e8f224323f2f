//! The PnL engine: realized profit and loss of a leveraged exposure.
//!
//! For a long the gain is `exit_price - entry_price`, for a short the
//! negation; the realized PnL is `gain * size / entry_price` with division
//! truncating toward zero, exactly as the ledger settles a close.

use vstd::prelude::*;
use crate::math::{div_trunc, lemma_div_trunc_abs, lemma_div_trunc_sign};

verus! {

/// The direction of a position's exposure.
#[derive(Clone, Copy, Debug, PartialEq, Eq, Structural)]
pub enum Side {
    /// Profits when the price rises.
    Long,
    /// Profits when the price falls.
    Short,
}

/// The signed price movement the position gains from: `exit - entry` for a
/// long, `entry - exit` for a short.
pub open spec fn spec_price_gain(entry_price: int, exit_price: int, side: Side) -> int {
    match side {
        Side::Long => exit_price - entry_price,
        Side::Short => entry_price - exit_price,
    }
}

/// Realized profit or loss: `gain * size / entry_price`, dividing as the
/// executable `/` does (truncating toward zero).
pub open spec fn spec_pnl(entry_price: int, exit_price: int, size: int, side: Side) -> int {
    div_trunc(spec_price_gain(entry_price, exit_price, side) * size, entry_price)
}

/// Whether the intermediate values of the PnL formula fit the ledger's
/// 128-bit signed arithmetic.
pub open spec fn pnl_fits(entry_price: int, exit_price: int, size: int, side: Side) -> bool {
    let gain = spec_price_gain(entry_price, exit_price, side);
    &&& i128::MIN <= gain <= i128::MAX
    &&& i128::MIN <= gain * size <= i128::MAX
}

/// Computes the realized PnL of a position of the given size and side,
/// opened at `entry_price` and settled at `exit_price`. Returns `None`
/// exactly when an intermediate value of the formula would overflow.
///
/// A zero or negative entry price is rejected by the ledger before the
/// formula is ever reached, so the division is always by a positive value.
pub fn calculate_pnl(entry_price: i128, exit_price: i128, size: i128, side: Side) -> (r: Option<
    i128,
>)
    requires
        entry_price > 0,
    ensures
        r is Some <==> pnl_fits(entry_price as int, exit_price as int, size as int, side),
        r matches Some(p) ==> p == spec_pnl(
            entry_price as int,
            exit_price as int,
            size as int,
            side,
        ),
{
    let gain_opt = match side {
        Side::Long => exit_price.checked_sub(entry_price),
        Side::Short => entry_price.checked_sub(exit_price),
    };
    match gain_opt {
        None => None,
        Some(gain) => match gain.checked_mul(size) {
            None => None,
            Some(prod) => {
                proof {
                    lemma_div_trunc_abs(prod as int, entry_price as int);
                }
                let q = prod.checked_div(entry_price);
                Some(q.unwrap())
            },
        },
    }
}

/// The sign of the realized PnL follows the direction of the price move:
/// positive exactly on a favourable move, zero on an unchanged price, and
/// never positive on an adverse one. Because the division truncates, a
/// favourable move so small that `gain * size` stays below `entry_price`
/// rounds to zero; the hypotheses leave exactly those inputs out.
pub proof fn lemma_pnl_sign(entry_price: int, exit_price: int, size: int, side: Side)
    requires
        entry_price > 0,
        size > 0,
        side == Side::Long && exit_price > entry_price ==> (exit_price - entry_price) * size
            >= entry_price,
        side == Side::Short && exit_price < entry_price ==> (entry_price - exit_price) * size
            >= entry_price,
    ensures
        side == Side::Long ==> (spec_pnl(entry_price, exit_price, size, side) > 0 <==> exit_price
            > entry_price),
        side == Side::Short ==> (spec_pnl(entry_price, exit_price, size, side) > 0 <==> exit_price
            < entry_price),
        exit_price == entry_price ==> spec_pnl(entry_price, exit_price, size, side) == 0,
{
    let gain = spec_price_gain(entry_price, exit_price, side);
    let prod = gain * size;
    lemma_div_trunc_sign(prod, entry_price);
    if gain < 0 {
        assert(prod < 0) by (nonlinear_arith)
            requires
                gain < 0,
                size > 0,
                prod == gain * size,
        ;
    }
    if gain == 0 {
        assert(prod == 0) by (nonlinear_arith)
            requires
                gain == 0,
                prod == gain * size,
        ;
    }
}

} // verus!
