use crate::address::Address;
use crate::env::{Env, Model};
use crate::errors::VaultError;
use crate::events::Event;
use crate::guard::{ends_with, refuse, refused, require_auth};
use crate::math::{fits, mul_div, mul_div_of, plus};
use crate::storage::{
    enter_reentrancy_guard, exit_reentrancy_guard, get_admin, get_balance, get_cumulative_yps,
    get_min_deposit, get_token, get_total_deposited, get_total_shares, get_tvl_cap,
    get_user_pending_yield, get_whitelist_enabled, is_paused, is_whitelisted, set_balance,
    set_total_deposited, set_total_shares, set_user_checkpoint, set_user_pending_yield,
};
use crate::transfer::{assert_incoming_transfer, delta_error, Transfer};
use crate::undo::{record_undo, undo_of, undo_shares, undone, Undo};
use crate::vault::AuraVault;
use vstd::prelude::*;

verus! {

/// A deposit whose shares are minted and whose tokens are still to be pulled
/// from the depositor.
#[derive(Debug)]
pub struct PendingDeposit {
    /// The transfer that completes the deposit.
    pub transfer: Transfer,
    pub caller: Address,
    pub amount: i128,
    /// Shares that were minted.
    pub new_shares: i128,
    /// Shares outstanding after the deposit.
    pub total_shares: i128,
    /// Assets tracked after the deposit.
    pub total_deposited: i128,
    pub undo: Undo,
}

/// Shares that a deposit of `amount` is worth: as many as tokens in an empty
/// vault, and otherwise `amount * total_shares / total_deposited` rounded
/// down. There are none where the arithmetic overflows.
pub open spec fn shares_for(m: Model, amount: i128) -> Option<i128> {
    if m.total_shares == 0 || m.total_deposited == 0 {
        Some(amount)
    } else {
        mul_div_of(amount as int, m.total_shares as int, m.total_deposited as int)
    }
}

/// Whether a deposit of `amount` would take the vault over its cap.
pub open spec fn over_cap(m: Model, amount: i128) -> bool {
    m.tvl_cap > 0 && m.total_deposited + amount > m.tvl_cap
}

/// Why a deposit is refused before any token moves.
pub open spec fn deposit_error(m: Model, caller: Address, amount: i128, balance: i128) -> Option<
    VaultError,
> {
    if m.locked {
        Some(VaultError::Reentrancy)
    } else if !m.has_auth(caller) {
        Some(VaultError::NotAuthorized)
    } else if amount <= 0 {
        Some(VaultError::ZeroAmount)
    } else if m.admin is None {
        Some(VaultError::NotInitialized)
    } else if m.paused {
        Some(VaultError::VaultPaused)
    } else if m.whitelist_enabled && !m.whitelisted(caller) {
        Some(VaultError::NotWhitelisted)
    } else if m.min_deposit > 0 && amount < m.min_deposit {
        Some(VaultError::BelowMinDeposit)
    } else if m.tvl_cap > 0 && !fits(m.total_deposited + amount) {
        Some(VaultError::MathOverflow)
    } else if over_cap(m, amount) {
        Some(VaultError::TvlCapExceeded)
    } else if m.token is None {
        Some(VaultError::NotInitialized)
    } else if balance != m.total_deposited {
        Some(VaultError::BalanceMismatch)
    } else if shares_for(m, amount) is None {
        Some(VaultError::MathOverflow)
    } else if shares_for(m, amount)->0 <= 0 {
        Some(VaultError::ZeroAmount)
    } else if !fits(m.balance(caller) + shares_for(m, amount)->0) || !fits(
        m.total_shares + shares_for(m, amount)->0,
    ) || !fits(m.total_deposited + amount) {
        Some(VaultError::MathOverflow)
    } else {
        None
    }
}

/// The vault with the shares of a deposit minted and its tokens tracked. The
/// caller's yield is counted afresh.
pub open spec fn minted(m: Model, caller: Address, amount: i128) -> Model {
    let new_shares = shares_for(m, amount)->0;
    Model {
        balances: m.balances.insert(caller.id, (m.balance(caller) + new_shares) as i128),
        user_checkpoints: m.user_checkpoints.insert(caller.id, m.cumulative_yps),
        user_pending_yields: m.user_pending_yields.insert(caller.id, m.stored_yield(caller)),
        total_shares: (m.total_shares + new_shares) as i128,
        total_deposited: (m.total_deposited + amount) as i128,
        ..m
    }
}

/// The deposit that an accepted call leaves to be completed.
pub open spec fn deposit_pending(m: Model, caller: Address, amount: i128) -> PendingDeposit {
    PendingDeposit {
        transfer: Transfer::Pull { token: m.token->0, from: caller, amount },
        caller,
        amount,
        new_shares: shares_for(m, amount)->0,
        total_shares: minted(m, caller, amount).total_shares,
        total_deposited: minted(m, caller, amount).total_deposited,
        undo: undo_of(m, caller),
    }
}

/// The vault after a completed deposit.
pub open spec fn deposited(m: Model, p: PendingDeposit) -> Model {
    Model { locked: false, ..m }.publish(
        Event::Deposit {
            caller: p.caller,
            amount: p.amount,
            new_shares: p.new_shares,
            total_shares: p.total_shares,
            total_deposited: p.total_deposited,
        },
    )
}

/// Checks a deposit and computes the shares that it is worth.
fn price_deposit(env: &Env, caller: Address, amount: i128, balance: i128) -> (r: Result<
    PendingDeposit,
    VaultError,
>)
    requires
        !env@.locked,
    ensures
        ends_with(r, deposit_error(env@, caller, amount, balance)),
        r is Ok ==> r->Ok_0 == deposit_pending(env@, caller, amount),
{
    require_auth(env, caller)?;
    if amount <= 0 {
        return Err(VaultError::ZeroAmount);
    }
    if get_admin(env).is_none() {
        return Err(VaultError::NotInitialized);
    }
    if is_paused(env) {
        return Err(VaultError::VaultPaused);
    }
    if get_whitelist_enabled(env) && !is_whitelisted(env, caller) {
        return Err(VaultError::NotWhitelisted);
    }
    let min_deposit: i128 = get_min_deposit(env);
    if min_deposit > 0 && amount < min_deposit {
        return Err(VaultError::BelowMinDeposit);
    }
    let tvl_cap: i128 = get_tvl_cap(env);
    if tvl_cap > 0 {
        let after_deposit: i128 = plus(get_total_deposited(env), amount)?;
        if after_deposit > tvl_cap {
            return Err(VaultError::TvlCapExceeded);
        }
    }
    let token = get_token(env).ok_or(VaultError::NotInitialized)?;
    let total_deposited: i128 = get_total_deposited(env);
    if balance != total_deposited {
        return Err(VaultError::BalanceMismatch);
    }
    let total_shares: i128 = get_total_shares(env);
    let new_shares: i128 = if total_shares == 0 || total_deposited == 0 {
        amount
    } else {
        mul_div(amount, total_shares, total_deposited)?
    };
    if new_shares <= 0 {
        return Err(VaultError::ZeroAmount);
    }
    plus(get_balance(env, caller), new_shares)?;
    let new_total_shares: i128 = plus(total_shares, new_shares)?;
    let new_total_deposited: i128 = plus(total_deposited, amount)?;
    Ok(
        PendingDeposit {
            transfer: Transfer::Pull { token, from: caller, amount },
            caller,
            amount,
            new_shares,
            total_shares: new_total_shares,
            total_deposited: new_total_deposited,
            undo: record_undo(env, caller),
        },
    )
}

impl AuraVault {
    /// Starts a deposit of `amount` underlying tokens by `caller`.
    ///
    /// `balance` is the vault's balance of the underlying token. The shares
    /// are minted before any token moves. An accepted deposit holds the
    /// reentrancy lock and asks for a transfer from the caller;
    /// [`AuraVault::finish_deposit`] completes it.
    pub fn deposit(env: &mut Env, caller: Address, amount: i128, balance: i128) -> (r: Result<
        PendingDeposit,
        VaultError,
    >)
        ensures
            ends_with(r, deposit_error(old(env)@, caller, amount, balance)),
            match r {
                Ok(p) => {
                    &&& p == deposit_pending(old(env)@, caller, amount)
                    &&& final(env)@ == (Model { locked: true, ..minted(old(env)@, caller, amount) })
                },
                Err(e) => final(env)@ == refused(old(env)@, e, balance),
            },
    {
        if env.locked {
            return Err(VaultError::Reentrancy);
        }
        let p = match price_deposit(env, caller, amount, balance) {
            Ok(p) => p,
            Err(e) => {
                refuse(env, e, balance);
                return Err(e);
            },
        };
        enter_reentrancy_guard(env)?;
        let new_balance: i128 = get_balance(env, caller) + p.new_shares;
        set_balance(env, caller, new_balance);
        let checkpoint: i128 = get_cumulative_yps(env);
        set_user_checkpoint(env, caller, checkpoint);
        let stored: i128 = get_user_pending_yield(env, caller);
        set_user_pending_yield(env, caller, stored);
        set_total_shares(env, p.total_shares);
        set_total_deposited(env, p.total_deposited);
        Ok(p)
    }

    /// Completes a deposit once its transfer has been made, and returns the
    /// shares that were minted.
    ///
    /// `balance_before` and `balance_after` are the vault's balances of the
    /// underlying token around the transfer. Unless exactly the deposited
    /// amount arrived, the shares are taken back.
    pub fn finish_deposit(
        env: &mut Env,
        pending: PendingDeposit,
        balance_before: i128,
        balance_after: i128,
    ) -> (r: Result<i128, VaultError>)
        ensures
            ends_with(r, delta_error(balance_after - balance_before, pending.amount)),
            match r {
                Ok(shares) => {
                    &&& shares == pending.new_shares
                    &&& final(env)@ == deposited(old(env)@, pending)
                },
                Err(_) => final(env)@ == undone(old(env)@, pending.caller, pending.undo),
            },
    {
        match assert_incoming_transfer(balance_before, balance_after, pending.amount) {
            Ok(_) => {},
            Err(e) => {
                undo_shares(env, pending.caller, pending.undo);
                return Err(e);
            },
        }
        env.publish(
            Event::Deposit {
                caller: pending.caller,
                amount: pending.amount,
                new_shares: pending.new_shares,
                total_shares: pending.total_shares,
                total_deposited: pending.total_deposited,
            },
        );
        exit_reentrancy_guard(env);
        Ok(pending.new_shares)
    }
}

} // verus!
