//! Contract counts under the fixed leverage heuristic.
//!
//! For every three base contracts the heuristic adds one more, rounding the
//! extra batch up and then taking one off.

use vstd::prelude::*;

verus! {

/// A third of `n`, rounded up to the next integer.
///
/// On `int`, `/` rounds down for a positive divisor and `%` is never negative,
/// so one is added exactly when the division leaves a remainder.
pub open spec fn third_rounded_up(n: int) -> int {
    if n % 3 == 0 {
        n / 3
    } else {
        n / 3 + 1
    }
}

/// The number of contracts to hold for `n` base contracts: `n`, plus a third
/// of `n` rounded up, less one.
pub open spec fn leveraged_contracts(n: int) -> int {
    third_rounded_up(n) - 1 + n
}

/// `third_rounded_up(n)` is the ceiling of `n / 3`: three times it reaches
/// `n`, and it is no more than any integer `c` of which that holds.
pub proof fn lemma_third_rounded_up_is_ceiling(n: int, c: int)
    ensures
        3 * third_rounded_up(n) >= n,
        3 * c >= n ==> third_rounded_up(n) <= c,
{
}

/// The leveraged count fits an `i32` exactly for base counts from
/// -1_610_612_735 to 1_610_612_736.
pub proof fn lemma_leveraged_contracts_fits(n: int)
    ensures
        i32::MIN <= leveraged_contracts(n) <= i32::MAX
            <==> -1_610_612_735 <= n <= 1_610_612_736,
{
}

/// Computes the leveraged contract count for `a_n` base contracts.
///
/// The count must fit the return type; `lemma_leveraged_contracts_fits` gives
/// the base counts for which it does. For zero base contracts the result
/// is -1.
pub fn calculate_leveraged_contracts(a_n: i32) -> (contracts: i32)
    requires
        i32::MIN <= leveraged_contracts(a_n as int) <= i32::MAX,
    ensures
        contracts == leveraged_contracts(a_n as int),
{
    // Machine division rounds toward zero, which is already the ceiling for a
    // negative `a_n`; only a positive remainder calls for the extra one.
    let quotient: i32 = a_n / 3;
    let remainder: i32 = a_n % 3;
    let third: i32 = if remainder > 0 {
        quotient + 1
    } else {
        quotient
    };
    third - 1 + a_n
}

} // verus!
