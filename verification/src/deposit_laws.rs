use crate::address::Address;
use crate::deposit::{deposit_error, deposit_pending, deposited, minted, over_cap, shares_for};
use crate::distribution::{accrued, pending_yield_of};
use crate::env::Model;
use crate::errors::VaultError;
use crate::events::Event;
use crate::foundation_laws::{law_mul_div_is_a_rounded_quotient, rounds_to};
use crate::math::fits;
use crate::share_laws::after_deposit;
use crate::transfer::Transfer;
use vstd::prelude::*;

verus! {

/// A deposit is worth its part of the vault: as many shares, rounded toward
/// zero, as its tokens are of the tracked assets. An empty vault gives one
/// share for each token.
pub proof fn law_deposits_are_worth_their_part(m: Model, amount: i128)
    ensures
        m.total_shares == 0 || m.total_deposited == 0 ==> shares_for(m, amount) == Some(amount),
        m.total_shares != 0 && m.total_deposited != 0 ==> match shares_for(m, amount) {
            Some(n) => fits(amount * m.total_shares) && rounds_to(
                n as int,
                amount * m.total_shares,
                m.total_deposited as int,
            ),
            None => !fits(amount * m.total_shares) || m.total_deposited == -1 && amount
                * m.total_shares == i128::MIN,
        },
        m.total_shares > 0 && m.total_deposited > 0 && amount >= 0 && shares_for(m, amount)
            is Some ==> {
            let n = shares_for(m, amount)->0;
            n * m.total_deposited <= amount * m.total_shares < (n + 1) * m.total_deposited
        },
{
    law_mul_div_is_a_rounded_quotient(
        amount as int,
        m.total_shares as int,
        m.total_deposited as int,
    );
    if m.total_shares > 0 && m.total_deposited > 0 && amount >= 0 && shares_for(m, amount)
        is Some {
        let n = shares_for(m, amount)->0;
        assert(amount * m.total_shares >= 0) by (nonlinear_arith)
            requires
                amount >= 0,
                m.total_shares > 0,
        ;
        assert((n + 1) * m.total_deposited == n * m.total_deposited + m.total_deposited)
            by (nonlinear_arith);
    }
}

/// What the answer to a deposit tells. It is accepted exactly if the depositor
/// has authorised it, the vault is set up, free and running, the depositor is
/// admitted, the amount reaches the minimum and stays under the cap, the token
/// balance is what the vault tracks, and at least one share comes of it.
pub proof fn law_answers_to_deposits(m: Model, caller: Address, amount: i128, balance: i128)
    ensures
        ({
            let called = !m.locked && m.has_auth(caller) && amount > 0;
            let running = called && m.admin is Some && !m.paused;
            let listed = !m.whitelist_enabled || m.whitelisted(caller);
            let large = m.min_deposit <= 0 || m.min_deposit <= amount;
            let admitted = running && listed && large;
            let under_cap = m.tvl_cap <= 0 || m.total_deposited + amount <= m.tvl_cap;
            let guarded = admitted && under_cap && m.token is Some && balance
                == m.total_deposited;
            let n = shares_for(m, amount);
            let room = fits(m.balance(caller) + n->0) && fits(m.total_shares + n->0) && fits(
                m.total_deposited + amount,
            );
            match deposit_error(m, caller, amount, balance) {
                None => guarded && n is Some && n->0 >= 1 && room,
                Some(VaultError::Reentrancy) => m.locked,
                Some(VaultError::NotAuthorized) => !m.locked && !m.has_auth(caller),
                Some(VaultError::ZeroAmount) => !m.locked && m.has_auth(caller) && (amount <= 0
                    || guarded && n is Some && n->0 < 1),
                Some(VaultError::NotInitialized) => called && (m.admin is None || admitted
                    && under_cap && m.token is None),
                Some(VaultError::VaultPaused) => called && m.admin is Some && m.paused,
                Some(VaultError::NotWhitelisted) => running && m.whitelist_enabled
                    && !m.whitelisted(caller),
                Some(VaultError::BelowMinDeposit) => running && listed && amount < m.min_deposit,
                Some(VaultError::TvlCapExceeded) => admitted && 0 < m.tvl_cap
                    < m.total_deposited + amount <= i128::MAX,
                Some(VaultError::BalanceMismatch) => admitted && under_cap && m.token is Some
                    && balance != m.total_deposited,
                Some(VaultError::MathOverflow) => admitted && m.tvl_cap > 0 && m.total_deposited
                    + amount > i128::MAX || guarded && (n is None || n->0 >= 1 && !room),
                Some(_) => false,
            }
        }),
        over_cap(m, amount) <==> 0 < m.tvl_cap < m.total_deposited + amount,
{
}

/// What a deposit does: the depositor gets the shares, the totals grow by the
/// shares and the tokens, exactly the deposited tokens are asked of the
/// depositor, and one event reports it. Nothing else changes.
pub proof fn law_deposits_mint_and_nothing_else(
    m: Model,
    caller: Address,
    amount: i128,
    balance: i128,
)
    requires
        deposit_error(m, caller, amount, balance) is None,
    ensures
        ({
            let n = shares_for(m, amount)->0;
            let p = deposit_pending(m, caller, amount);
            let after = after_deposit(m, caller, amount);
            &&& p.transfer == (Transfer::Pull { token: m.token->0, from: caller, amount })
            &&& p.new_shares == n
            &&& after.balance(caller) == m.balance(caller) + n
            &&& after.total_shares == m.total_shares + n
            &&& after.total_deposited == m.total_deposited + amount
            &&& after.stored_yield(caller) == m.stored_yield(caller)
            &&& after.checkpoint(caller) == m.cumulative_yps
            &&& after.balances.remove(caller.id) == m.balances.remove(caller.id)
            &&& after.user_checkpoints.remove(caller.id) == m.user_checkpoints.remove(caller.id)
            &&& after.user_pending_yields.remove(caller.id) == m.user_pending_yields.remove(
                caller.id,
            )
            &&& after.events == m.events.push(
                Event::Deposit {
                    caller,
                    amount,
                    new_shares: n,
                    total_shares: after.total_shares,
                    total_deposited: after.total_deposited,
                },
            )
            &&& after == (Model {
                balances: after.balances,
                user_checkpoints: after.user_checkpoints,
                user_pending_yields: after.user_pending_yields,
                total_shares: after.total_shares,
                total_deposited: after.total_deposited,
                events: after.events,
                ..m
            })
            &&& (Model { locked: true, ..minted(m, caller, amount) }) == (Model {
                locked: true,
                events: m.events,
                ..after
            })
        }),
{
    let after = after_deposit(m, caller, amount);
    assert(after.balances.remove(caller.id) =~= m.balances.remove(caller.id));
    assert(after.user_checkpoints.remove(caller.id) =~= m.user_checkpoints.remove(caller.id));
    assert(after.user_pending_yields.remove(caller.id) =~= m.user_pending_yields.remove(
        caller.id,
    ));
}

/// The end of a deposit reports exactly what the deposit was.
pub proof fn law_finished_deposit_reports_itself(m: Model, p: crate::deposit::PendingDeposit)
    ensures
        deposited(m, p).events == m.events.push(
            Event::Deposit {
                caller: p.caller,
                amount: p.amount,
                new_shares: p.new_shares,
                total_shares: p.total_shares,
                total_deposited: p.total_deposited,
            },
        ),
{
}

/// A depositor has no part in yield that was distributed before: right after a
/// deposit nothing has accrued, whether or not the depositor held shares.
pub proof fn law_deposits_have_no_part_in_past_yield(
    m: Model,
    caller: Address,
    amount: i128,
    balance: i128,
)
    requires
        deposit_error(m, caller, amount, balance) is None,
    ensures
        accrued(after_deposit(m, caller, amount), caller) == Some(0i128),
        pending_yield_of(after_deposit(m, caller, amount), caller) == m.stored_yield(caller),
{
    assert(after_deposit(m, caller, amount).balance(caller) * 0 == 0) by (nonlinear_arith);
}

/// A larger deposit never gets fewer shares.
pub proof fn law_more_tokens_never_buy_fewer_shares(m: Model, less: i128, more: i128)
    requires
        m.total_shares >= 0,
        m.total_deposited >= 0,
        0 <= less <= more,
        shares_for(m, more) is Some,
    ensures
        shares_for(m, less) is Some,
        shares_for(m, less)->0 <= shares_for(m, more)->0,
{
    law_deposits_are_worth_their_part(m, less);
    law_deposits_are_worth_their_part(m, more);
    let s = m.total_shares as int;
    let d = m.total_deposited as int;
    if s > 0 && d > 0 {
        assert(0 <= less * s <= more * s) by (nonlinear_arith)
            requires
                0 <= less <= more,
                s > 0,
        ;
        let x = shares_for(m, less)->0 as int;
        let y = shares_for(m, more)->0 as int;
        assert(x <= y) by (nonlinear_arith)
            requires
                x * d <= less * s,
                less * s <= more * s,
                more * s < (y + 1) * d,
                d > 0,
        ;
    }
}

} // verus!
