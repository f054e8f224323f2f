//! A leveraged perpetual-futures position ledger.
//!
//! The library owns the position accounting and pricing rules: opening and
//! closing margined long/short positions, the invariants tying margin,
//! leverage, size and custody balance together, the realized-PnL and
//! funding-rate formulas with their exact truncation and clamping behaviour,
//! and the admin/owner authorization checks. Host concerns (persistent
//! storage, the price oracle, asset transfers) stay outside: callers fetch a
//! reference price and a timestamp and hand them in as plain values.
//!
//! [`ledger`] holds the position ledger and its operations; [`pnl`] and
//! [`funding`] are the pure pricing engines; [`oracle`] is the shape of an
//! oracle answer; [`math`] defines the truncating division the engines are
//! specified with; [`errors`] is the shared error taxonomy.

pub mod errors;
pub mod funding;
pub mod ledger;
pub mod math;
pub mod oracle;
pub mod pnl;
