//! The fee calculator: a proportional fee in basis points, with overflow
//! detected rather than wrapped, and its ordering laws.

use vstd::prelude::*;
use vstd::arithmetic::div_mod::lemma_div_is_ordered;
use vstd::arithmetic::mul::lemma_mul_upper_bound;
use crate::state::PorgError;

verus! {

/// The divisor that turns basis points into a proportion: 10000 bp = 100%.
pub const BASIS_POINT_DENOMINATOR: u64 = 10000;

/// What the fee is, mathematically: `floor(amount * bp / 10000)`.
pub open spec fn fee_of(amount: u64, fee_basis_points: u16) -> int {
    (amount as int) * (fee_basis_points as int) / (BASIS_POINT_DENOMINATOR as int)
}

/// Compute the fee on `amount` at `fee_basis_points`. Succeeds with exactly
/// `fee_of(amount, fee_basis_points)` whenever the product
/// `amount * fee_basis_points` fits in 64 bits, and reports overflow
/// otherwise; no other outcome is possible.
pub fn calculate_fee(amount: u64, fee_basis_points: u16) -> (r: Result<u64, PorgError>)
    ensures
        r matches Ok(fee) ==> fee == fee_of(amount, fee_basis_points),
        r matches Ok(_) <==> (amount as int) * (fee_basis_points as int) <= u64::MAX,
        r == Err::<u64, PorgError>(PorgError::ArithmeticOverflow) <==> (amount as int) * (
        fee_basis_points as int) > u64::MAX,
{
    proof {
        lemma_mul_upper_bound(amount as int, u64::MAX as int, fee_basis_points as int, u16::MAX as int);
    }
    let wide: u128 = (amount as u128) * (fee_basis_points as u128);
    if wide > (u64::MAX as u128) {
        Err(PorgError::ArithmeticOverflow)
    } else {
        proof {
            lemma_div_is_ordered(0, wide as int, BASIS_POINT_DENOMINATOR as int);
            lemma_div_is_ordered(wide as int, u64::MAX as int, BASIS_POINT_DENOMINATOR as int);
        }
        Ok((wide / (BASIS_POINT_DENOMINATOR as u128)) as u64)
    }
}

/// Law: the fee is monotonic non-decreasing in the amount and in the rate.
pub proof fn lemma_fee_monotonic(amount1: u64, amount2: u64, bp1: u16, bp2: u16)
    requires
        amount1 <= amount2,
        bp1 <= bp2,
    ensures
        fee_of(amount1, bp1) <= fee_of(amount2, bp2),
{
    lemma_mul_upper_bound(amount1 as int, amount2 as int, bp1 as int, bp2 as int);
    lemma_div_is_ordered(
        amount1 as int * bp1 as int,
        amount2 as int * bp2 as int,
        BASIS_POINT_DENOMINATOR as int,
    );
}

/// Law: a zero rate charges no fee, whatever the amount.
pub proof fn lemma_fee_zero_rate(amount: u64)
    ensures
        fee_of(amount, 0) == 0,
{
}

} // verus!
