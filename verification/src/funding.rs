//! The funding rate engine and the market-level checks around pricing.
//!
//! The funding rate balances long and short demand: it is one basis point,
//! adjusted by one hundredth of the spot/futures spread expressed in basis
//! points, and clamped to ten basis points either way.

use vstd::prelude::*;
use vstd::math::abs;
use vstd::arithmetic::div_mod::lemma_div_is_ordered;
use crate::math::{div_trunc, lemma_div_trunc_abs};
use crate::oracle::{PriceData, MAX_PRICE_AGE};

verus! {

/// The clamped funding rate, in basis points: `1 + (diff_bps / 100)` where
/// `diff_bps == (futures - spot) * 10000 / spot`, every division truncating
/// toward zero, the result capped to `[-10, 10]`.
pub open spec fn spec_funding_rate(spot_price: int, futures_price: int) -> int {
    let diff_bps = div_trunc((futures_price - spot_price) * 10000, spot_price);
    let rate = 1 + div_trunc(diff_bps, 100);
    if rate > 10 {
        10
    } else if rate < -10 {
        -10
    } else {
        rate
    }
}

/// Funding-rate band law: for every non-zero spot price the rate the
/// formula yields lies in `[-10, 10]`.
pub proof fn lemma_funding_rate_bounded(spot_price: int, futures_price: int)
    requires
        spot_price != 0,
    ensures
        -10 <= spec_funding_rate(spot_price, futures_price) <= 10,
{
}

/// The pure market rules: the funding-rate formula, the plausibility band
/// for a price, and the freshness judgement on an oracle answer.
pub struct PerpetualFuturesContract;

impl PerpetualFuturesContract {
    /// Computes the clamped funding rate from a spot/futures price pair.
    ///
    /// A zero spot price is undefined for the formula and must be rejected
    /// by the caller beforehand. The bounds keep the scaled spread inside
    /// `i128`; the lower bound is strict because a multiple of `10000`
    /// never equals `i128::MIN`, so no attainable input is excluded.
    pub fn calculate_funding_rate(spot_price: i128, futures_price: i128) -> (r: i128)
        requires
            spot_price != 0,
            i128::MIN <= futures_price - spot_price <= i128::MAX,
            i128::MIN < (futures_price - spot_price) * 10000 <= i128::MAX,
        ensures
            r == spec_funding_rate(spot_price as int, futures_price as int),
            -10 <= r <= 10,
    {
        let price_diff = futures_price - spot_price;
        let scaled = price_diff * 10000;
        proof {
            lemma_div_trunc_abs(scaled as int, spot_price as int);
        }
        let diff_bps = scaled.checked_div(spot_price).unwrap();
        proof {
            lemma_div_trunc_abs(diff_bps as int, 100);
            lemma_div_is_ordered(abs(diff_bps as int) as int, i128::MAX as int, 100);
        }
        let adjustment = diff_bps.checked_div(100).unwrap();
        let funding_rate = 1 + adjustment;
        if funding_rate > 10 {
            10
        } else if funding_rate < -10 {
            -10
        } else {
            funding_rate
        }
    }

    /// Whether a price lies in the plausible band: positive and below one
    /// trillion smallest units.
    pub fn is_price_valid(price: i128) -> (r: bool)
        ensures
            r == (0 < price < 1000000000000),
    {
        price > 0 && price < 1000000000000
    }

    /// The version of the market rules.
    pub fn version() -> (r: u32)
        ensures
            r == 1,
    {
        1
    }

    /// Whether an oracle answer is fresh: present and at most
    /// [`MAX_PRICE_AGE`] seconds older than the current time. An absent
    /// answer is never fresh.
    pub fn is_price_fresh(current_time: u64, price: Option<PriceData>) -> (r: bool)
        requires
            price matches Some(p) ==> p.timestamp <= current_time,
        ensures
            r == (price matches Some(p) && current_time - p.timestamp <= MAX_PRICE_AGE),
    {
        match price {
            None => false,
            Some(p) => current_time - p.timestamp <= MAX_PRICE_AGE,
        }
    }
}

} // verus!
