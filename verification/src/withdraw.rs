use crate::address::Address;
use crate::env::{Env, Model};
use crate::errors::VaultError;
use crate::events::Event;
use crate::guard::{ends_with, refuse, refused, require_auth};
use crate::math::{fits, minus, mul_div, mul_div_of};
use crate::storage::{
    enter_reentrancy_guard, exit_reentrancy_guard, get_admin, get_balance, get_cumulative_yps,
    get_token, get_total_deposited, get_total_shares, get_user_pending_yield,
    get_withdrawal_next_id, get_withdrawal_queue_threshold, get_withdrawal_unbonding_secs,
    is_paused, set_balance, set_total_deposited, set_total_shares, set_user_checkpoint,
    set_user_pending_yield, set_withdrawal_entry, set_withdrawal_next_id, WithdrawalEntry,
};
use crate::transfer::{assert_outgoing_transfer, delta_error, Transfer};
use crate::undo::{record_undo, undo_of, undo_shares, undone, Undo};
use crate::vault::AuraVault;
use vstd::prelude::*;

verus! {

/// A redemption whose shares are burned and whose tokens are still to be sent.
#[derive(Debug)]
pub struct PendingWithdraw {
    /// The transfer that completes the redemption.
    pub transfer: Transfer,
    pub caller: Address,
    /// Shares that were burned.
    pub shares: i128,
    /// Tokens that the caller will receive.
    pub redeem_amount: i128,
    /// Shares outstanding after the redemption.
    pub total_shares: i128,
    /// Assets tracked after the redemption.
    pub total_deposited: i128,
    pub undo: Undo,
}

/// The vault with `shares` of `caller` burned, tracking `total_deposited` from
/// then on. The caller's yield is counted afresh.
pub open spec fn burned(m: Model, caller: Address, shares: i128, total_deposited: i128) -> Model {
    Model {
        balances: m.balances.insert(caller.id, (m.balance(caller) - shares) as i128),
        user_checkpoints: m.user_checkpoints.insert(caller.id, m.cumulative_yps),
        user_pending_yields: m.user_pending_yields.insert(caller.id, m.stored_yield(caller)),
        total_shares: (m.total_shares - shares) as i128,
        total_deposited,
        ..m
    }
}

/// Tokens that `shares` are worth: `shares * total_deposited / total_shares`
/// rounded down. There are none where the arithmetic overflows or no share is
/// outstanding.
pub open spec fn redemption_for(m: Model, shares: i128) -> Option<i128> {
    mul_div_of(shares as int, m.total_deposited as int, m.total_shares as int)
}

/// Whether a redemption of `amount` goes through the queue.
pub open spec fn queues(m: Model, amount: i128) -> bool {
    m.withdrawal_queue_threshold > 0 && amount >= m.withdrawal_queue_threshold
}

/// Why a withdrawal is refused. `WithdrawalQueued` stands for a withdrawal
/// that is taken into the queue.
pub open spec fn withdraw_error(m: Model, caller: Address, shares: i128, balance: i128) -> Option<
    VaultError,
> {
    if m.locked {
        Some(VaultError::Reentrancy)
    } else if !m.has_auth(caller) {
        Some(VaultError::NotAuthorized)
    } else if shares <= 0 {
        Some(VaultError::ZeroAmount)
    } else if m.admin is None {
        Some(VaultError::NotInitialized)
    } else if m.paused {
        Some(VaultError::VaultPaused)
    } else if m.token is None {
        Some(VaultError::NotInitialized)
    } else if balance != m.total_deposited {
        Some(VaultError::BalanceMismatch)
    } else if shares > m.balance(caller) {
        Some(VaultError::InsufficientShares)
    } else if redemption_for(m, shares) is None {
        Some(VaultError::MathOverflow)
    } else if redemption_for(m, shares)->0 <= 0 {
        Some(VaultError::ZeroAmount)
    } else if m.total_deposited < redemption_for(m, shares)->0 {
        Some(VaultError::InsufficientUnderlying)
    } else if !fits(m.total_shares - shares) {
        Some(VaultError::MathOverflow)
    } else if queues(m, redemption_for(m, shares)->0) {
        Some(VaultError::WithdrawalQueued)
    } else {
        None
    }
}

/// The vault with the shares of a withdrawal burned and its tokens no longer
/// tracked.
pub open spec fn redeemed(m: Model, caller: Address, shares: i128) -> Model {
    burned(m, caller, shares, (m.total_deposited - redemption_for(m, shares)->0) as i128)
}

/// The withdrawal that an accepted call leaves to be completed.
pub open spec fn withdraw_pending(m: Model, caller: Address, shares: i128) -> PendingWithdraw {
    let redeem_amount = redemption_for(m, shares)->0;
    PendingWithdraw {
        transfer: Transfer::Push { token: m.token->0, to: caller, amount: redeem_amount },
        caller,
        shares,
        redeem_amount,
        total_shares: redeemed(m, caller, shares).total_shares,
        total_deposited: redeemed(m, caller, shares).total_deposited,
        undo: undo_of(m, caller),
    }
}

/// The earliest time at which a withdrawal queued now can be claimed.
pub open spec fn claimable_after(m: Model) -> u64 {
    if m.timestamp + m.withdrawal_unbonding_secs > u64::MAX {
        u64::MAX
    } else {
        (m.timestamp + m.withdrawal_unbonding_secs) as u64
    }
}

/// The vault after a withdrawal was taken into the queue: the shares are
/// burned and an entry under the next ID stands for the tokens.
pub open spec fn queued(m: Model, caller: Address, shares: i128) -> Model {
    let after = redeemed(m, caller, shares);
    let redeem_amount = redemption_for(m, shares)->0;
    let id = m.withdrawal_next_id;
    Model {
        withdrawal_next_id: (id + 1) as u64,
        withdrawal_entries: m.withdrawal_entries.insert(
            id,
            WithdrawalEntry {
                owner: caller,
                shares,
                redeem_amount,
                claimable_after: claimable_after(m),
                claimed: false,
            },
        ),
        events: m.events.push(
            Event::WithdrawQueued {
                caller,
                entry_id: id,
                shares,
                redeem_amount,
                claimable_after: claimable_after(m),
                total_shares: after.total_shares,
                total_deposited: after.total_deposited,
            },
        ),
        ..after
    }
}

/// The vault after a completed withdrawal.
pub open spec fn withdrawn(m: Model, p: PendingWithdraw) -> Model {
    Model { locked: false, ..m }.publish(
        Event::Withdraw {
            caller: p.caller,
            shares: p.shares,
            redeem_amount: p.redeem_amount,
            total_shares: p.total_shares,
            total_deposited: p.total_deposited,
        },
    )
}

/// Why an emergency withdrawal is refused.
pub open spec fn emergency_withdraw_error(
    m: Model,
    caller: Address,
    shares: i128,
    balance: i128,
) -> Option<VaultError> {
    if m.locked {
        Some(VaultError::Reentrancy)
    } else if !m.has_auth(caller) {
        Some(VaultError::NotAuthorized)
    } else if shares <= 0 {
        Some(VaultError::ZeroAmount)
    } else if m.admin is None {
        Some(VaultError::NotInitialized)
    } else if !m.paused {
        Some(VaultError::NotVaultPaused)
    } else if m.token is None {
        Some(VaultError::NotInitialized)
    } else if shares > m.balance(caller) {
        Some(VaultError::InsufficientShares)
    } else if emergency_redemption_for(m, shares, balance) is None {
        Some(VaultError::MathOverflow)
    } else if emergency_redemption_for(m, shares, balance)->0 <= 0 {
        Some(VaultError::ZeroAmount)
    } else if !fits(m.total_shares - shares) {
        Some(VaultError::MathOverflow)
    } else {
        None
    }
}

/// Tokens that `shares` are worth in an emergency: their part of the tokens
/// that the vault really holds, `shares * balance / total_shares` rounded
/// down.
pub open spec fn emergency_redemption_for(m: Model, shares: i128, balance: i128) -> Option<i128> {
    mul_div_of(shares as int, balance as int, m.total_shares as int)
}

/// The vault with the shares of an emergency withdrawal burned. Tokens that
/// were never tracked are paid out first.
pub open spec fn emergency_redeemed(
    m: Model,
    caller: Address,
    shares: i128,
    balance: i128,
) -> Model {
    burned(
        m,
        caller,
        shares,
        emergency_remainder(m.total_deposited, emergency_redemption_for(m, shares, balance)->0),
    )
}

/// The assets tracked after an emergency payment of `paid`: never less than
/// nothing.
pub open spec fn emergency_remainder(total_deposited: i128, paid: i128) -> i128 {
    if total_deposited <= paid {
        0
    } else {
        (total_deposited - paid) as i128
    }
}

/// The emergency withdrawal that an accepted call leaves to be completed.
pub open spec fn emergency_pending(
    m: Model,
    caller: Address,
    shares: i128,
    balance: i128,
) -> PendingWithdraw {
    let redeem_amount = emergency_redemption_for(m, shares, balance)->0;
    let after = emergency_redeemed(m, caller, shares, balance);
    PendingWithdraw {
        transfer: Transfer::Push { token: m.token->0, to: caller, amount: redeem_amount },
        caller,
        shares,
        redeem_amount,
        total_shares: after.total_shares,
        total_deposited: after.total_deposited,
        undo: undo_of(m, caller),
    }
}

/// The vault after a completed emergency withdrawal.
pub open spec fn emergency_withdrawn(m: Model, p: PendingWithdraw) -> Model {
    Model { locked: false, ..m }.publish(
        Event::EmergencyWithdraw {
            caller: p.caller,
            shares: p.shares,
            redeem_amount: p.redeem_amount,
            total_shares: p.total_shares,
            total_deposited: p.total_deposited,
        },
    )
}

/// Checks a withdrawal and computes the tokens that its shares are worth.
fn price_withdraw(env: &Env, caller: Address, shares: i128, balance: i128) -> (r: Result<
    PendingWithdraw,
    VaultError,
>)
    requires
        !env@.locked,
    ensures
        match r {
            Ok(p) => {
                &&& p == withdraw_pending(env@, caller, shares)
                &&& withdraw_error(env@, caller, shares, balance) == (if queues(
                    env@,
                    p.redeem_amount,
                ) {
                    Some(VaultError::WithdrawalQueued)
                } else {
                    None
                })
                &&& fits(env@.balance(caller) - shares)
            },
            Err(e) => {
                &&& withdraw_error(env@, caller, shares, balance) == Some(e)
                &&& e != VaultError::WithdrawalQueued
            },
        },
{
    require_auth(env, caller)?;
    if shares <= 0 {
        return Err(VaultError::ZeroAmount);
    }
    if get_admin(env).is_none() {
        return Err(VaultError::NotInitialized);
    }
    if is_paused(env) {
        return Err(VaultError::VaultPaused);
    }
    let token = get_token(env).ok_or(VaultError::NotInitialized)?;
    let total_deposited: i128 = get_total_deposited(env);
    if balance != total_deposited {
        return Err(VaultError::BalanceMismatch);
    }
    if shares > get_balance(env, caller) {
        return Err(VaultError::InsufficientShares);
    }
    let total_shares: i128 = get_total_shares(env);
    let redeem_amount: i128 = mul_div(shares, total_deposited, total_shares)?;
    if redeem_amount <= 0 {
        return Err(VaultError::ZeroAmount);
    }
    if total_deposited < redeem_amount {
        return Err(VaultError::InsufficientUnderlying);
    }
    let new_total_shares: i128 = minus(total_shares, shares)?;
    let new_total_deposited: i128 = minus(total_deposited, redeem_amount)?;
    Ok(
        PendingWithdraw {
            transfer: Transfer::Push { token, to: caller, amount: redeem_amount },
            caller,
            shares,
            redeem_amount,
            total_shares: new_total_shares,
            total_deposited: new_total_deposited,
            undo: record_undo(env, caller),
        },
    )
}

/// Checks an emergency withdrawal and computes the tokens that its shares are
/// worth.
fn price_emergency_withdraw(env: &Env, caller: Address, shares: i128, balance: i128) -> (r: Result<
    PendingWithdraw,
    VaultError,
>)
    requires
        !env@.locked,
    ensures
        ends_with(r, emergency_withdraw_error(env@, caller, shares, balance)),
        r is Ok ==> {
            &&& r->Ok_0 == emergency_pending(env@, caller, shares, balance)
            &&& fits(env@.balance(caller) - shares)
        },
        r is Err ==> r->Err_0 != VaultError::BalanceMismatch,
{
    require_auth(env, caller)?;
    if shares <= 0 {
        return Err(VaultError::ZeroAmount);
    }
    if get_admin(env).is_none() {
        return Err(VaultError::NotInitialized);
    }
    if !is_paused(env) {
        return Err(VaultError::NotVaultPaused);
    }
    let token = get_token(env).ok_or(VaultError::NotInitialized)?;
    if shares > get_balance(env, caller) {
        return Err(VaultError::InsufficientShares);
    }
    let total_shares: i128 = get_total_shares(env);
    let redeem_amount: i128 = mul_div(shares, balance, total_shares)?;
    if redeem_amount <= 0 {
        return Err(VaultError::ZeroAmount);
    }
    let new_total_shares: i128 = minus(total_shares, shares)?;
    let total_deposited: i128 = get_total_deposited(env);
    let new_total_deposited: i128 = if total_deposited <= redeem_amount {
        0
    } else {
        total_deposited - redeem_amount
    };
    Ok(
        PendingWithdraw {
            transfer: Transfer::Push { token, to: caller, amount: redeem_amount },
            caller,
            shares,
            redeem_amount,
            total_shares: new_total_shares,
            total_deposited: new_total_deposited,
            undo: record_undo(env, caller),
        },
    )
}

/// Burns the shares of a redemption and sets the totals that it leaves.
fn burn(env: &mut Env, caller: Address, shares: i128, total_shares: i128, total_deposited: i128)
    requires
        fits(old(env)@.balance(caller) - shares),
        total_shares == old(env)@.total_shares - shares,
    ensures
        final(env)@ == burned(old(env)@, caller, shares, total_deposited),
{
    let new_balance: i128 = get_balance(env, caller) - shares;
    set_balance(env, caller, new_balance);
    set_total_shares(env, total_shares);
    let checkpoint: i128 = get_cumulative_yps(env);
    set_user_checkpoint(env, caller, checkpoint);
    let stored: i128 = get_user_pending_yield(env, caller);
    set_user_pending_yield(env, caller, stored);
    set_total_deposited(env, total_deposited);
}

impl AuraVault {
    /// Starts the redemption of `shares` by `caller`.
    ///
    /// `balance` is the vault's balance of the underlying token. The shares
    /// are burned before any token moves. An accepted withdrawal holds the
    /// reentrancy lock and asks for a transfer to the caller;
    /// [`AuraVault::finish_withdraw`] completes it.
    ///
    /// A redemption of at least the queue threshold is queued instead: the
    /// shares are burned, an entry is stored, and the call ends with
    /// `WithdrawalQueued`.
    pub fn withdraw(env: &mut Env, caller: Address, shares: i128, balance: i128) -> (r: Result<
        PendingWithdraw,
        VaultError,
    >)
        requires
            withdraw_error(old(env)@, caller, shares, balance) == Some(
                VaultError::WithdrawalQueued,
            ) ==> old(env)@.withdrawal_next_id < u64::MAX,
        ensures
            ends_with(r, withdraw_error(old(env)@, caller, shares, balance)),
            match r {
                Ok(p) => {
                    &&& p == withdraw_pending(old(env)@, caller, shares)
                    &&& final(env)@ == (Model {
                        locked: true,
                        ..redeemed(old(env)@, caller, shares)
                    })
                },
                Err(e) => final(env)@ == (if e == VaultError::WithdrawalQueued {
                    queued(old(env)@, caller, shares)
                } else {
                    refused(old(env)@, e, balance)
                }),
            },
    {
        if env.locked {
            return Err(VaultError::Reentrancy);
        }
        let p = match price_withdraw(env, caller, shares, balance) {
            Ok(p) => p,
            Err(e) => {
                refuse(env, e, balance);
                return Err(e);
            },
        };
        enter_reentrancy_guard(env)?;
        burn(env, caller, shares, p.total_shares, p.total_deposited);

        let threshold: i128 = get_withdrawal_queue_threshold(env);
        if threshold > 0 && p.redeem_amount >= threshold {
            let unbonding_secs: u64 = get_withdrawal_unbonding_secs(env);
            let claimable_after: u64 = env.timestamp.saturating_add(unbonding_secs);
            let entry_id: u64 = get_withdrawal_next_id(env);
            set_withdrawal_next_id(env, entry_id + 1);
            set_withdrawal_entry(
                env,
                entry_id,
                WithdrawalEntry {
                    owner: caller,
                    shares,
                    redeem_amount: p.redeem_amount,
                    claimable_after,
                    claimed: false,
                },
            );
            env.publish(
                Event::WithdrawQueued {
                    caller,
                    entry_id,
                    shares,
                    redeem_amount: p.redeem_amount,
                    claimable_after,
                    total_shares: p.total_shares,
                    total_deposited: p.total_deposited,
                },
            );
            exit_reentrancy_guard(env);
            return Err(VaultError::WithdrawalQueued);
        }
        Ok(p)
    }

    /// Completes a withdrawal once its transfer has been made, and returns
    /// the tokens that were sent.
    ///
    /// `balance_before` and `balance_after` are the vault's balances of the
    /// underlying token around the transfer. Unless exactly the redeemed
    /// amount left, the shares are put back.
    pub fn finish_withdraw(
        env: &mut Env,
        pending: PendingWithdraw,
        balance_before: i128,
        balance_after: i128,
    ) -> (r: Result<i128, VaultError>)
        ensures
            ends_with(r, delta_error(balance_before - balance_after, pending.redeem_amount)),
            match r {
                Ok(amount) => {
                    &&& amount == pending.redeem_amount
                    &&& final(env)@ == withdrawn(old(env)@, pending)
                },
                Err(_) => final(env)@ == undone(old(env)@, pending.caller, pending.undo),
            },
    {
        match assert_outgoing_transfer(balance_before, balance_after, pending.redeem_amount) {
            Ok(_) => {},
            Err(e) => {
                undo_shares(env, pending.caller, pending.undo);
                return Err(e);
            },
        }
        env.publish(
            Event::Withdraw {
                caller: pending.caller,
                shares: pending.shares,
                redeem_amount: pending.redeem_amount,
                total_shares: pending.total_shares,
                total_deposited: pending.total_deposited,
            },
        );
        exit_reentrancy_guard(env);
        Ok(pending.redeem_amount)
    }

    /// Starts the redemption of `shares` by `caller` while the vault is
    /// paused.
    ///
    /// `balance` is the vault's balance of the underlying token; the caller
    /// is owed a proportional part of it, without any fee. The shares are
    /// burned before any token moves. Nobody can switch this off.
    /// [`AuraVault::finish_emergency_withdraw`] completes it.
    pub fn emergency_withdraw(env: &mut Env, caller: Address, shares: i128, balance: i128) -> (r:
        Result<PendingWithdraw, VaultError>)
        ensures
            ends_with(r, emergency_withdraw_error(old(env)@, caller, shares, balance)),
            match r {
                Ok(p) => {
                    &&& p == emergency_pending(old(env)@, caller, shares, balance)
                    &&& final(env)@ == (Model {
                        locked: true,
                        ..emergency_redeemed(old(env)@, caller, shares, balance)
                    })
                },
                Err(_) => final(env)@ == old(env)@,
            },
    {
        if env.locked {
            return Err(VaultError::Reentrancy);
        }
        let p = price_emergency_withdraw(env, caller, shares, balance)?;
        enter_reentrancy_guard(env)?;
        burn(env, caller, shares, p.total_shares, p.total_deposited);
        Ok(p)
    }

    /// Completes an emergency withdrawal once its transfer has been made, and
    /// returns the tokens that were sent.
    ///
    /// Unless exactly the redeemed amount left, the shares are put back.
    pub fn finish_emergency_withdraw(
        env: &mut Env,
        pending: PendingWithdraw,
        balance_before: i128,
        balance_after: i128,
    ) -> (r: Result<i128, VaultError>)
        ensures
            ends_with(r, delta_error(balance_before - balance_after, pending.redeem_amount)),
            match r {
                Ok(amount) => {
                    &&& amount == pending.redeem_amount
                    &&& final(env)@ == emergency_withdrawn(old(env)@, pending)
                },
                Err(_) => final(env)@ == undone(old(env)@, pending.caller, pending.undo),
            },
    {
        match assert_outgoing_transfer(balance_before, balance_after, pending.redeem_amount) {
            Ok(_) => {},
            Err(e) => {
                undo_shares(env, pending.caller, pending.undo);
                return Err(e);
            },
        }
        env.publish(
            Event::EmergencyWithdraw {
                caller: pending.caller,
                shares: pending.shares,
                redeem_amount: pending.redeem_amount,
                total_shares: pending.total_shares,
                total_deposited: pending.total_deposited,
            },
        );
        exit_reentrancy_guard(env);
        Ok(pending.redeem_amount)
    }
}

} // verus!
