use crate::address::Address;
use crate::env::{Env, Model};
use crate::errors::VaultError;
use crate::events::Event;
use crate::fee::BPS_DENOMINATOR;
use crate::guard::{admin_check, admin_error, check_admin, ends_with, enter_as_admin, require_auth};
use crate::math::{fits, minus, mul_div, mul_div_of, plus};
use crate::storage;
use crate::storage::{
    enter_reentrancy_guard, exit_reentrancy_guard, get_admin, get_token, get_total_fee_collected,
    is_paused, remove_withdrawal_entry, set_total_fee_collected, set_withdrawal_entry,
    WithdrawalEntry,
};
use crate::transfer::{assert_outgoing_transfer, delta_error, Transfer};
use crate::vault::AuraVault;
use vstd::prelude::*;

verus! {

/// Maximum withdrawal fee in basis points (5%).
pub const MAX_WITHDRAWAL_FEE_BPS: u32 = 500;

/// A claim whose queue entry is removed and whose tokens are still to be sent.
#[derive(Debug)]
pub struct PendingClaim {
    /// The transfer that completes the claim.
    pub transfer: Transfer,
    pub caller: Address,
    pub entry_id: u64,
    pub entry: WithdrawalEntry,
    /// Part of the redemption that the vault keeps.
    pub fee_amount: i128,
    /// Part of the redemption that the caller will receive.
    pub net_amount: i128,
    /// Fees collected before the claim.
    pub total_fee_collected: i128,
}

/// The fee on a queued redemption of `amount`, rounded down. There is none
/// where the arithmetic overflows.
pub open spec fn claim_fee(m: Model, amount: i128) -> Option<i128> {
    if m.withdrawal_fee_bps > 0 {
        mul_div_of(amount as int, m.withdrawal_fee_bps as int, BPS_DENOMINATOR as int)
    } else {
        Some(0)
    }
}

/// Why a claim is refused.
pub open spec fn claim_error(m: Model, caller: Address, entry_id: u64) -> Option<VaultError> {
    let entry = m.withdrawal_entries[entry_id];
    let fee = claim_fee(m, entry.redeem_amount);
    if m.locked {
        Some(VaultError::Reentrancy)
    } else if !m.has_auth(caller) {
        Some(VaultError::NotAuthorized)
    } else if m.admin is None {
        Some(VaultError::NotInitialized)
    } else if m.paused {
        Some(VaultError::VaultPaused)
    } else if !m.withdrawal_entries.contains_key(entry_id) {
        Some(VaultError::QueueEntryNotFound)
    } else if entry.owner != caller {
        Some(VaultError::InsufficientShares)
    } else if m.timestamp < entry.claimable_after {
        Some(VaultError::QueueUnbondingPending)
    } else if fee is None || !fits(entry.redeem_amount - fee->0) {
        Some(VaultError::MathOverflow)
    } else if entry.redeem_amount - fee->0 <= 0 {
        Some(VaultError::ZeroAmount)
    } else if fee->0 > 0 && !fits(m.total_fee_collected + fee->0) {
        Some(VaultError::MathOverflow)
    } else if m.token is None {
        Some(VaultError::NotInitialized)
    } else {
        None
    }
}

/// The claim that an accepted call leaves to be completed.
pub open spec fn claim_pending(m: Model, caller: Address, entry_id: u64) -> PendingClaim {
    let entry = m.withdrawal_entries[entry_id];
    let fee_amount = claim_fee(m, entry.redeem_amount)->0;
    let net_amount = (entry.redeem_amount - fee_amount) as i128;
    PendingClaim {
        transfer: Transfer::Push { token: m.token->0, to: caller, amount: net_amount },
        caller,
        entry_id,
        entry,
        fee_amount,
        net_amount,
        total_fee_collected: m.total_fee_collected,
    }
}

/// The vault while the tokens of a claim are sent: the entry is gone and the
/// fee is collected.
pub open spec fn claiming(m: Model, entry_id: u64) -> Model {
    let fee_amount = claim_fee(m, m.withdrawal_entries[entry_id].redeem_amount)->0;
    Model {
        locked: true,
        withdrawal_entries: m.withdrawal_entries.remove(entry_id),
        total_fee_collected: if fee_amount > 0 {
            (m.total_fee_collected + fee_amount) as i128
        } else {
            m.total_fee_collected
        },
        ..m
    }
}

/// The vault after a completed claim.
pub open spec fn claimed(m: Model, p: PendingClaim) -> Model {
    Model { locked: false, ..m }.publish(
        Event::WithdrawalClaimed {
            caller: p.caller,
            entry_id: p.entry_id,
            redeem_amount: p.entry.redeem_amount,
            fee_amount: p.fee_amount,
            net_amount: p.net_amount,
        },
    )
}

/// The vault with the entry and the fee of a claim put back.
pub open spec fn unclaimed(m: Model, p: PendingClaim) -> Model {
    Model {
        locked: false,
        withdrawal_entries: m.withdrawal_entries.insert(p.entry_id, p.entry),
        total_fee_collected: p.total_fee_collected,
        ..m
    }
}

/// Why a withdrawal fee is refused.
pub open spec fn withdrawal_fee_error(m: Model, admin: Address, bps: u32) -> Option<VaultError> {
    if m.locked {
        Some(VaultError::Reentrancy)
    } else if m.admin is None {
        Some(VaultError::NotInitialized)
    } else if m.admin != Some(admin) {
        Some(VaultError::UpgradeUnauthorized)
    } else if bps > MAX_WITHDRAWAL_FEE_BPS {
        Some(VaultError::InvalidWithdrawalFee)
    } else {
        admin_check(m, admin)
    }
}

/// Checks a claim and computes its fee.
fn price_claim(env: &Env, caller: Address, entry_id: u64) -> (r: Result<PendingClaim, VaultError>)
    requires
        !env@.locked,
    ensures
        ends_with(r, claim_error(env@, caller, entry_id)),
        r is Ok ==> r->Ok_0 == claim_pending(env@, caller, entry_id),
{
    require_auth(env, caller)?;
    if get_admin(env).is_none() {
        return Err(VaultError::NotInitialized);
    }
    if is_paused(env) {
        return Err(VaultError::VaultPaused);
    }
    let entry = storage::get_withdrawal_entry(env, entry_id).ok_or(VaultError::QueueEntryNotFound)?;
    if entry.owner != caller {
        return Err(VaultError::InsufficientShares);
    }
    if env.timestamp < entry.claimable_after {
        return Err(VaultError::QueueUnbondingPending);
    }
    let fee_bps: u32 = storage::get_withdrawal_fee_bps(env);
    let fee_amount: i128 = if fee_bps > 0 {
        mul_div(entry.redeem_amount, fee_bps as i128, BPS_DENOMINATOR)?
    } else {
        0
    };
    let net_amount: i128 = minus(entry.redeem_amount, fee_amount)?;
    if net_amount <= 0 {
        return Err(VaultError::ZeroAmount);
    }
    let total_fee_collected: i128 = get_total_fee_collected(env);
    if fee_amount > 0 {
        plus(total_fee_collected, fee_amount)?;
    }
    let token = get_token(env).ok_or(VaultError::NotInitialized)?;
    Ok(
        PendingClaim {
            transfer: Transfer::Push { token, to: caller, amount: net_amount },
            caller,
            entry_id,
            entry,
            fee_amount,
            net_amount,
            total_fee_collected,
        },
    )
}

impl AuraVault {
    /// Sets the redemption from which withdrawals are queued; 0 disables the
    /// queue.
    pub fn set_withdrawal_queue_threshold(env: &mut Env, admin: Address, threshold: i128) -> (r:
        Result<(), VaultError>)
        ensures
            ends_with(r, admin_error(old(env)@, admin)),
            final(env)@ == (if r is Ok {
                Model { withdrawal_queue_threshold: threshold, ..old(env)@ }.publish(
                    Event::QueueThresholdSet { admin, threshold },
                )
            } else {
                old(env)@
            }),
    {
        enter_as_admin(env, admin)?;
        storage::set_withdrawal_queue_threshold(env, threshold);
        env.publish(Event::QueueThresholdSet { admin, threshold });
        exit_reentrancy_guard(env);
        Ok(())
    }

    /// Sets the seconds that a queued withdrawal has to wait.
    pub fn set_withdrawal_unbonding_secs(env: &mut Env, admin: Address, secs: u64) -> (r: Result<
        (),
        VaultError,
    >)
        ensures
            ends_with(r, admin_error(old(env)@, admin)),
            final(env)@ == (if r is Ok {
                Model { withdrawal_unbonding_secs: secs, ..old(env)@ }.publish(
                    Event::UnbondingSet { admin, secs },
                )
            } else {
                old(env)@
            }),
    {
        enter_as_admin(env, admin)?;
        storage::set_withdrawal_unbonding_secs(env, secs);
        env.publish(Event::UnbondingSet { admin, secs });
        exit_reentrancy_guard(env);
        Ok(())
    }

    /// Sets the withdrawal fee in basis points, at most 500.
    ///
    /// The fee is kept back when a queued withdrawal is claimed.
    pub fn set_withdrawal_fee(env: &mut Env, admin: Address, bps: u32) -> (r: Result<
        (),
        VaultError,
    >)
        ensures
            ends_with(r, withdrawal_fee_error(old(env)@, admin, bps)),
            final(env)@ == (if r is Ok {
                Model { withdrawal_fee_bps: bps, ..old(env)@ }.publish(
                    Event::WithdrawalFeeSet { admin, bps },
                )
            } else {
                old(env)@
            }),
    {
        if env.locked {
            return Err(VaultError::Reentrancy);
        }
        check_admin(env, admin)?;
        if bps > MAX_WITHDRAWAL_FEE_BPS {
            return Err(VaultError::InvalidWithdrawalFee);
        }
        enter_as_admin(env, admin)?;
        storage::set_withdrawal_fee_bps(env, bps);
        env.publish(Event::WithdrawalFeeSet { admin, bps });
        exit_reentrancy_guard(env);
        Ok(())
    }

    /// The redemption from which withdrawals are queued (0 = queue disabled).
    pub fn get_withdrawal_queue_threshold(env: &Env) -> (r: i128)
        ensures
            r == env@.withdrawal_queue_threshold,
    {
        storage::get_withdrawal_queue_threshold(env)
    }

    /// The seconds that a queued withdrawal has to wait.
    pub fn get_withdrawal_unbonding_secs(env: &Env) -> (r: u64)
        ensures
            r == env@.withdrawal_unbonding_secs,
    {
        storage::get_withdrawal_unbonding_secs(env)
    }

    /// The withdrawal fee in basis points.
    pub fn get_withdrawal_fee_bps(env: &Env) -> (r: u32)
        ensures
            r == env@.withdrawal_fee_bps,
    {
        storage::get_withdrawal_fee_bps(env)
    }

    /// The queue entry with the given ID; none if it was never created or has
    /// been claimed.
    pub fn get_withdrawal_entry(env: &Env, entry_id: u64) -> (r: Option<WithdrawalEntry>)
        ensures
            r == (if env@.withdrawal_entries.contains_key(entry_id) {
                Some(env@.withdrawal_entries[entry_id])
            } else {
                None
            }),
    {
        storage::get_withdrawal_entry(env, entry_id)
    }

    /// Starts the claim of a queued withdrawal by its owner, once the
    /// unbonding period is over.
    ///
    /// The shares were burned when the withdrawal was queued. The entry is
    /// removed and the fee collected before any token moves. An accepted
    /// claim holds the reentrancy lock and asks for a transfer to the caller;
    /// [`AuraVault::finish_claim`] completes it.
    pub fn claim_queued_withdrawal(env: &mut Env, caller: Address, entry_id: u64) -> (r: Result<
        PendingClaim,
        VaultError,
    >)
        ensures
            ends_with(r, claim_error(old(env)@, caller, entry_id)),
            match r {
                Ok(p) => {
                    &&& p == claim_pending(old(env)@, caller, entry_id)
                    &&& final(env)@ == claiming(old(env)@, entry_id)
                },
                Err(_) => final(env)@ == old(env)@,
            },
    {
        if env.locked {
            return Err(VaultError::Reentrancy);
        }
        let p = price_claim(env, caller, entry_id)?;
        enter_reentrancy_guard(env)?;
        remove_withdrawal_entry(env, entry_id);
        if p.fee_amount > 0 {
            set_total_fee_collected(env, p.total_fee_collected + p.fee_amount);
        }
        Ok(p)
    }

    /// Completes a claim once its transfer has been made, and returns the
    /// tokens that were sent.
    ///
    /// `balance_before` and `balance_after` are the vault's balances of the
    /// underlying token around the transfer. Unless exactly the net amount
    /// left, the entry and the fee are put back.
    pub fn finish_claim(
        env: &mut Env,
        pending: PendingClaim,
        balance_before: i128,
        balance_after: i128,
    ) -> (r: Result<i128, VaultError>)
        ensures
            ends_with(r, delta_error(balance_before - balance_after, pending.net_amount)),
            match r {
                Ok(amount) => {
                    &&& amount == pending.net_amount
                    &&& final(env)@ == claimed(old(env)@, pending)
                },
                Err(_) => final(env)@ == unclaimed(old(env)@, pending),
            },
    {
        match assert_outgoing_transfer(balance_before, balance_after, pending.net_amount) {
            Ok(_) => {},
            Err(e) => {
                set_withdrawal_entry(env, pending.entry_id, pending.entry);
                set_total_fee_collected(env, pending.total_fee_collected);
                exit_reentrancy_guard(env);
                return Err(e);
            },
        }
        env.publish(
            Event::WithdrawalClaimed {
                caller: pending.caller,
                entry_id: pending.entry_id,
                redeem_amount: pending.entry.redeem_amount,
                fee_amount: pending.fee_amount,
                net_amount: pending.net_amount,
            },
        );
        exit_reentrancy_guard(env);
        Ok(pending.net_amount)
    }
}

} // verus!
