//! The oracle adapter surface: the value an oracle hands back for an asset.
//!
//! The oracle itself is an external collaborator; the ledger consumes only
//! its answers, as plain values, and judges their freshness.

use vstd::prelude::*;

verus! {

/// One oracle answer: a price and the time it was recorded.
#[derive(Clone, Copy, Debug, PartialEq, Eq, Structural)]
pub struct PriceData {
    /// The reference price, in the oracle's smallest unit.
    pub price: i128,
    /// When the oracle recorded the price, in seconds.
    pub timestamp: u64,
}

/// The longest an oracle answer may lag the current time and still count
/// as fresh, in seconds.
pub const MAX_PRICE_AGE: u64 = 300;

} // verus!
