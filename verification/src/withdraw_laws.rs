use crate::address::Address;
use crate::distribution::{accrued, pending_yield_of};
use crate::env::Model;
use crate::errors::VaultError;
use crate::events::Event;
use crate::foundation_laws::{law_mul_div_is_a_rounded_quotient, rounds_to};
use crate::math::fits;
use crate::share_laws::{after_emergency_withdraw, after_withdraw};
use crate::transfer::Transfer;
use crate::withdraw::{
    emergency_pending, emergency_redeemed, emergency_redemption_for,
    emergency_withdraw_error, emergency_withdrawn, queued, redeemed,
    redemption_for, withdraw_error, withdraw_pending, withdrawn, PendingWithdraw,
};
use vstd::prelude::*;

verus! {

/// Shares are redeemed for their part of the tracked assets, rounded toward
/// zero.
pub proof fn law_shares_are_worth_their_part(m: Model, shares: i128)
    ensures
        match redemption_for(m, shares) {
            Some(r) => fits(shares * m.total_deposited) && rounds_to(
                r as int,
                shares * m.total_deposited,
                m.total_shares as int,
            ),
            None => !fits(shares * m.total_deposited) || m.total_shares == 0 || m.total_shares
                == -1 && shares * m.total_deposited == i128::MIN,
        },
        m.total_shares > 0 && m.total_deposited >= 0 && shares >= 0 && redemption_for(m, shares)
            is Some ==> {
            let r = redemption_for(m, shares)->0;
            r * m.total_shares <= shares * m.total_deposited < (r + 1) * m.total_shares
        },
{
    law_mul_div_is_a_rounded_quotient(
        shares as int,
        m.total_deposited as int,
        m.total_shares as int,
    );
    if m.total_shares > 0 && m.total_deposited >= 0 && shares >= 0 && redemption_for(m, shares)
        is Some {
        let r = redemption_for(m, shares)->0;
        assert(shares * m.total_deposited >= 0) by (nonlinear_arith)
            requires
                shares >= 0,
                m.total_deposited >= 0,
        ;
        assert((r + 1) * m.total_shares == r * m.total_shares + m.total_shares)
            by (nonlinear_arith);
    }
}

/// What the answer to a withdrawal tells. Where nothing else refuses it, a
/// withdrawal is queued exactly if there is a threshold and the redeemed tokens
/// reach it, and paid at once otherwise.
pub proof fn law_answers_to_withdrawals(m: Model, caller: Address, shares: i128, balance: i128)
    ensures
        ({
            let called = !m.locked && m.has_auth(caller) && shares > 0;
            let running = called && m.admin is Some && !m.paused;
            let guarded = running && m.token is Some && balance == m.total_deposited;
            let held = guarded && shares <= m.balance(caller);
            let r = redemption_for(m, shares);
            let payable = held && r is Some && 1 <= r->0 <= m.total_deposited && fits(
                m.total_shares - shares,
            );
            match withdraw_error(m, caller, shares, balance) {
                None => payable && (m.withdrawal_queue_threshold <= 0 || withdraw_pending(
                    m,
                    caller,
                    shares,
                ).redeem_amount < m.withdrawal_queue_threshold),
                Some(VaultError::WithdrawalQueued) => payable && 0 < m.withdrawal_queue_threshold
                    <= r->0,
                Some(VaultError::Reentrancy) => m.locked,
                Some(VaultError::NotAuthorized) => !m.locked && !m.has_auth(caller),
                Some(VaultError::ZeroAmount) => !m.locked && m.has_auth(caller) && (shares <= 0
                    || held && r is Some && r->0 < 1),
                Some(VaultError::NotInitialized) => called && (m.admin is None || running
                    && m.token is None),
                Some(VaultError::VaultPaused) => called && m.admin is Some && m.paused,
                Some(VaultError::BalanceMismatch) => running && m.token is Some && balance
                    != m.total_deposited,
                Some(VaultError::InsufficientShares) => guarded && shares > m.balance(caller),
                Some(VaultError::InsufficientUnderlying) => held && r is Some && r->0 >= 1
                    && m.total_deposited < r->0,
                Some(VaultError::MathOverflow) => held && (r is None || 1 <= r->0
                    <= m.total_deposited && !fits(m.total_shares - shares)),
                Some(_) => false,
            }
        }),
{
}

/// What a paid withdrawal does: the shares are gone from their holder and from
/// the total, the redeemed tokens are no longer tracked, exactly they are asked
/// to be sent to the holder, and one event reports it. Nothing else changes.
pub proof fn law_withdrawals_burn_and_nothing_else(
    m: Model,
    caller: Address,
    shares: i128,
    balance: i128,
)
    requires
        withdraw_error(m, caller, shares, balance) is None,
    ensures
        ({
            let r = redemption_for(m, shares)->0;
            let p = withdraw_pending(m, caller, shares);
            let after = after_withdraw(m, caller, shares);
            &&& p.transfer == (Transfer::Push { token: m.token->0, to: caller, amount: r })
            &&& p.redeem_amount == r
            &&& after.events == m.events.push(
                Event::Withdraw {
                    caller,
                    shares,
                    redeem_amount: r,
                    total_shares: after.total_shares,
                    total_deposited: after.total_deposited,
                },
            )
            &&& after.total_deposited == m.total_deposited - r
            &&& only_burned(m, after, caller, shares)
            &&& after.withdrawal_entries == m.withdrawal_entries
            &&& after.withdrawal_next_id == m.withdrawal_next_id
            &&& (Model { locked: true, ..redeemed(m, caller, shares) }) == (Model {
                locked: true,
                events: m.events,
                ..after
            })
        }),
{
    lemma_only_caller_changes(m, after_withdraw(m, caller, shares), caller);
}

/// What a queued withdrawal does: the shares are gone, the tokens are no longer
/// tracked, no tokens move, and an entry under the next ID owes the holder the
/// redeemed tokens once the unbonding period is over.
pub proof fn law_queued_withdrawals_leave_an_entry(
    m: Model,
    caller: Address,
    shares: i128,
    balance: i128,
)
    requires
        withdraw_error(m, caller, shares, balance) == Some(VaultError::WithdrawalQueued),
        m.withdrawal_next_id < u64::MAX,
    ensures
        ({
            let r = redemption_for(m, shares)->0;
            let id = m.withdrawal_next_id;
            let after = queued(m, caller, shares);
            let entry = after.withdrawal_entries[id];
            &&& after.withdrawal_entries.contains_key(id)
            &&& entry.owner == caller
            &&& entry.shares == shares
            &&& entry.redeem_amount == r
            &&& !entry.claimed
            &&& entry.claimable_after == m.timestamp + m.withdrawal_unbonding_secs
                || entry.claimable_after == u64::MAX && m.timestamp + m.withdrawal_unbonding_secs
                > u64::MAX
            &&& after.withdrawal_entries.remove(id) == m.withdrawal_entries.remove(id)
            &&& after.withdrawal_next_id == id + 1
            &&& after.total_deposited == m.total_deposited - r
            &&& only_burned(m, after, caller, shares)
            &&& after.events == m.events.push(
                Event::WithdrawQueued {
                    caller,
                    entry_id: id,
                    shares,
                    redeem_amount: r,
                    claimable_after: entry.claimable_after,
                    total_shares: after.total_shares,
                    total_deposited: after.total_deposited,
                },
            )
        }),
{
    let after = queued(m, caller, shares);
    lemma_only_caller_changes(m, after, caller);
    assert(after.withdrawal_entries.remove(m.withdrawal_next_id)
        =~= m.withdrawal_entries.remove(m.withdrawal_next_id));
}

/// From `m` to `after`, exactly `shares` of `caller` were burned and the
/// caller's yield is counted afresh; besides these, only the tracked assets,
/// the queue and the events may differ.
pub open spec fn only_burned(m: Model, after: Model, caller: Address, shares: i128) -> bool {
    &&& after.balance(caller) == m.balance(caller) - shares
    &&& after.total_shares == m.total_shares - shares
    &&& after.checkpoint(caller) == m.cumulative_yps
    &&& after.stored_yield(caller) == m.stored_yield(caller)
    &&& after.balances.remove(caller.id) == m.balances.remove(caller.id)
    &&& after.user_checkpoints.remove(caller.id) == m.user_checkpoints.remove(caller.id)
    &&& after.user_pending_yields.remove(caller.id) == m.user_pending_yields.remove(caller.id)
    &&& after == (Model {
        balances: after.balances,
        user_checkpoints: after.user_checkpoints,
        user_pending_yields: after.user_pending_yields,
        total_shares: after.total_shares,
        total_deposited: after.total_deposited,
        withdrawal_entries: after.withdrawal_entries,
        withdrawal_next_id: after.withdrawal_next_id,
        events: after.events,
        ..m
    })
}

/// Tables that differ in one holder's entry agree in all others.
proof fn lemma_only_caller_changes(m: Model, after: Model, caller: Address)
    requires
        exists|v: i128| after.balances == #[trigger] m.balances.insert(caller.id, v),
        exists|v: i128|
            after.user_checkpoints == #[trigger] m.user_checkpoints.insert(caller.id, v),
        exists|v: i128|
            after.user_pending_yields == #[trigger] m.user_pending_yields.insert(caller.id, v),
    ensures
        after.balances.remove(caller.id) == m.balances.remove(caller.id),
        after.user_checkpoints.remove(caller.id) == m.user_checkpoints.remove(caller.id),
        after.user_pending_yields.remove(caller.id) == m.user_pending_yields.remove(caller.id),
{
    assert(after.balances.remove(caller.id) =~= m.balances.remove(caller.id));
    assert(after.user_checkpoints.remove(caller.id) =~= m.user_checkpoints.remove(caller.id));
    assert(after.user_pending_yields.remove(caller.id) =~= m.user_pending_yields.remove(
        caller.id,
    ));
}

/// What was burned earns nothing any more, and what is left starts afresh:
/// right after a withdrawal nothing has accrued.
pub proof fn law_withdrawals_start_yield_afresh(
    m: Model,
    caller: Address,
    shares: i128,
    balance: i128,
)
    ensures
        withdraw_error(m, caller, shares, balance) is None ==> pending_yield_of(
            after_withdraw(m, caller, shares),
            caller,
        ) == m.stored_yield(caller),
        withdraw_error(m, caller, shares, balance) == Some(VaultError::WithdrawalQueued)
            ==> pending_yield_of(queued(m, caller, shares), caller) == m.stored_yield(caller),
        emergency_withdraw_error(m, caller, shares, balance) is None ==> pending_yield_of(
            after_emergency_withdraw(m, caller, shares, balance),
            caller,
        ) == m.stored_yield(caller),
        withdraw_error(m, caller, shares, balance) is None ==> accrued(
            after_withdraw(m, caller, shares),
            caller,
        ) == Some(0i128),
{
    assert((m.balance(caller) - shares) as i128 * 0 == 0) by (nonlinear_arith);
}

/// In an emergency shares are redeemed for their part of the tokens that the
/// vault really holds, rounded toward zero. No fee is taken.
pub proof fn law_emergency_shares_are_worth_their_part(m: Model, shares: i128, balance: i128)
    ensures
        match emergency_redemption_for(m, shares, balance) {
            Some(r) => fits(shares * balance) && rounds_to(
                r as int,
                shares * balance,
                m.total_shares as int,
            ),
            None => !fits(shares * balance) || m.total_shares == 0 || m.total_shares == -1
                && shares * balance == i128::MIN,
        },
        m.total_shares > 0 && shares >= 0 && balance >= 0 && emergency_redemption_for(
            m,
            shares,
            balance,
        ) is Some ==> {
            let r = emergency_redemption_for(m, shares, balance)->0;
            r * m.total_shares <= shares * balance < (r + 1) * m.total_shares
        },
{
    law_mul_div_is_a_rounded_quotient(shares as int, balance as int, m.total_shares as int);
    if m.total_shares > 0 && shares >= 0 && balance >= 0 && emergency_redemption_for(
        m,
        shares,
        balance,
    ) is Some {
        let r = emergency_redemption_for(m, shares, balance)->0;
        assert(shares * balance >= 0) by (nonlinear_arith)
            requires
                shares >= 0,
                balance >= 0,
        ;
        assert((r + 1) * m.total_shares == r * m.total_shares + m.total_shares)
            by (nonlinear_arith);
    }
}

/// What the answer to an emergency withdrawal tells. A paused vault gives every
/// holder their part, whatever the settings are.
pub proof fn law_answers_to_emergency_withdrawals(
    m: Model,
    caller: Address,
    shares: i128,
    balance: i128,
)
    ensures
        ({
            let called = !m.locked && m.has_auth(caller) && shares > 0;
            let open = called && m.admin is Some && m.paused && m.token is Some;
            let held = open && shares <= m.balance(caller);
            let r = emergency_redemption_for(m, shares, balance);
            match emergency_withdraw_error(m, caller, shares, balance) {
                None => held && r is Some && r->0 >= 1 && fits(m.total_shares - shares),
                Some(VaultError::Reentrancy) => m.locked,
                Some(VaultError::NotAuthorized) => !m.locked && !m.has_auth(caller),
                Some(VaultError::ZeroAmount) => !m.locked && m.has_auth(caller) && (shares <= 0
                    || held && r is Some && r->0 < 1),
                Some(VaultError::NotInitialized) => called && (m.admin is None || m.paused
                    && m.token is None),
                Some(VaultError::NotVaultPaused) => called && m.admin is Some && !m.paused,
                Some(VaultError::InsufficientShares) => open && shares > m.balance(caller),
                Some(VaultError::MathOverflow) => held && (r is None || r->0 >= 1 && !fits(
                    m.total_shares - shares,
                )),
                Some(_) => false,
            }
        }),
{
}

/// What an emergency withdrawal does: the shares are gone, exactly their part
/// is asked to be sent to the holder, what is tracked falls by as much but not
/// below nothing, and one event reports it. Nothing else changes.
pub proof fn law_emergency_withdrawals_burn_and_nothing_else(
    m: Model,
    caller: Address,
    shares: i128,
    balance: i128,
)
    requires
        emergency_withdraw_error(m, caller, shares, balance) is None,
    ensures
        ({
            let r = emergency_redemption_for(m, shares, balance)->0;
            let p = emergency_pending(m, caller, shares, balance);
            let after = after_emergency_withdraw(m, caller, shares, balance);
            &&& p.transfer == (Transfer::Push { token: m.token->0, to: caller, amount: r })
            &&& p.redeem_amount == r
            &&& after.total_deposited >= 0
            &&& after.total_deposited >= m.total_deposited - r
            &&& after.total_deposited == 0 || after.total_deposited == m.total_deposited - r
            &&& only_burned(m, after, caller, shares)
            &&& after.withdrawal_entries == m.withdrawal_entries
            &&& after.withdrawal_next_id == m.withdrawal_next_id
            &&& after.events == m.events.push(
                Event::EmergencyWithdraw {
                    caller,
                    shares,
                    redeem_amount: r,
                    total_shares: after.total_shares,
                    total_deposited: after.total_deposited,
                },
            )
            &&& (Model { locked: true, ..emergency_redeemed(m, caller, shares, balance) })
                == (Model { locked: true, events: m.events, ..after })
        }),
{
    lemma_only_caller_changes(m, after_emergency_withdraw(m, caller, shares, balance), caller);
}

/// The end of a withdrawal reports exactly what the withdrawal was.
pub proof fn law_finished_withdrawal_reports_itself(m: Model, p: PendingWithdraw)
    ensures
        withdrawn(m, p).events == m.events.push(
            Event::Withdraw {
                caller: p.caller,
                shares: p.shares,
                redeem_amount: p.redeem_amount,
                total_shares: p.total_shares,
                total_deposited: p.total_deposited,
            },
        ),
        emergency_withdrawn(m, p).events == m.events.push(
            Event::EmergencyWithdraw {
                caller: p.caller,
                shares: p.shares,
                redeem_amount: p.redeem_amount,
                total_shares: p.total_shares,
                total_deposited: p.total_deposited,
            },
        ),
{
}

} // verus!
