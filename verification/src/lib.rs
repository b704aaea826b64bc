//! Trade arithmetic for equity positions: the integer part of the formula set,
//! with every function proved against a mathematical statement of its result.

pub mod leverage;
pub mod transaction;

pub use leverage::calculate_leveraged_contracts;
pub use transaction::TransactionType;
