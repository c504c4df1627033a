use crate::address::Address;
use crate::errors::VaultError;
use crate::math::{fits, minus};
use vstd::prelude::*;

verus! {

/// A token transfer that the vault asks for.
#[derive(Clone, Copy, Debug, PartialEq, Eq, Structural)]
pub enum Transfer {
    /// Move `amount` of `token` from `from` into the vault.
    Pull { token: Address, from: Address, amount: i128 },
    /// Move `amount` of `token` out of the vault to `to`.
    Push { token: Address, to: Address, amount: i128 },
}

/// Why a transfer is refused: the balance did not move by exactly `expected`.
pub open spec fn delta_error(delta: int, expected: i128) -> Option<VaultError> {
    if !fits(delta) {
        Some(VaultError::MathOverflow)
    } else if delta != expected {
        Some(VaultError::TransferFailed)
    } else {
        None
    }
}

/// Asserts that an incoming transfer moved exactly `expected` into the vault.
///
/// A token that charges a fee on transfers delivers less than was asked for;
/// the balances before and after show it.
pub fn assert_incoming_transfer(balance_before: i128, balance_after: i128, expected: i128) -> (r:
    Result<(), VaultError>)
    ensures
        r == (match delta_error(balance_after - balance_before, expected) {
            Some(e) => Err::<(), VaultError>(e),
            None => Ok(()),
        }),
{
    let delta: i128 = minus(balance_after, balance_before)?;
    if delta != expected {
        return Err(VaultError::TransferFailed);
    }
    Ok(())
}

/// Asserts that an outgoing transfer moved exactly `expected` out of the vault.
pub fn assert_outgoing_transfer(balance_before: i128, balance_after: i128, expected: i128) -> (r:
    Result<(), VaultError>)
    ensures
        r == (match delta_error(balance_before - balance_after, expected) {
            Some(e) => Err::<(), VaultError>(e),
            None => Ok(()),
        }),
{
    let delta: i128 = minus(balance_before, balance_after)?;
    if delta != expected {
        return Err(VaultError::TransferFailed);
    }
    Ok(())
}

} // verus!
