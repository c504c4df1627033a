use crate::errors::VaultError;
use crate::math::{mul_div, mul_div_of};
use vstd::prelude::*;

verus! {

/// Basis points in the whole.
pub const BPS_DENOMINATOR: i128 = 10_000;

/// The performance fee on `amount`: `amount * bps / 10_000` rounded down.
/// There is none where the arithmetic overflows.
pub open spec fn perf_fee_of(amount: i128, bps: u32) -> Option<i128> {
    mul_div_of(amount as int, bps as int, BPS_DENOMINATOR as int)
}

/// Computes the performance fee on `amount`.
pub fn calc_perf_fee(amount: i128, bps: u32) -> (r: Result<i128, VaultError>)
    ensures
        r == (match perf_fee_of(amount, bps) {
            Some(fee) => Ok(fee),
            None => Err(VaultError::MathOverflow),
        }),
{
    mul_div(amount, bps as i128, BPS_DENOMINATOR)
}

} // verus!
