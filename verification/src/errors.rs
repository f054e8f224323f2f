//! The error taxonomy shared by every ledger operation.
//!
//! Every operation either fully succeeds or fails with exactly one of these
//! kinds, leaving the ledger untouched.

use vstd::prelude::*;

verus! {

/// Why an operation was rejected.
#[derive(Clone, Copy, Debug, PartialEq, Eq, Structural)]
pub enum Error {
    /// An input was out of range: leverage outside 1-10, margin below the
    /// minimum, a non-positive reference price, or a value that would not
    /// fit the ledger's fixed-width arithmetic.
    InvalidInput,
    /// The referenced position id was never allocated.
    NotFound,
    /// The caller does not match the identity the operation demands.
    Unauthorized,
    /// The position was closed before; a close happens exactly once.
    AlreadyClosed,
    /// A withdrawal asked for more than the ledger holds.
    InsufficientBalance,
    /// The operation ran before `initialize` seeded the ledger.
    Uninitialized,
    /// The oracle returned no price; the operation aborts untried.
    OracleUnavailable,
    /// The admin paused the ledger; opens and closes are rejected until
    /// `resume_contract` lifts the pause.
    Paused,
}

} // verus!
