//! The side of a transaction.

use vstd::prelude::*;

verus! {

/// Which side of the market a transaction is on.
///
/// The type carries no behaviour of its own. Formulas whose sign convention
/// differs between buying and selling take it by value and branch on it.
#[derive(Debug, Clone, Copy, PartialEq, Eq, Structural)]
pub enum TransactionType {
    /// Shares are acquired: tax and commission add to the amount paid.
    Buy,
    /// Shares are given up: tax and commission come off the amount received.
    Sell,
}

} // verus!
