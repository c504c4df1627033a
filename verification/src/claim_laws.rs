use crate::address::Address;
use crate::admin::{
    fees_pending, fees_withdrawn, upgrade_error, upgraded, withdraw_fees_error, PendingFees,
};
use crate::env::Model;
use crate::errors::VaultError;
use crate::events::Event;
use crate::foundation_laws::{law_mul_div_is_a_rounded_quotient, rounds_to};
use crate::math::fits;
use crate::queue::{
    claim_error, claim_fee, claim_pending, claimed, claiming, withdrawal_fee_error, PendingClaim,
};
use crate::queue_laws::{after_claim, after_fee_withdrawal};
use crate::transfer::Transfer;
use vstd::prelude::*;

verus! {

/// The fee on a queued redemption is the configured rate of it, in
/// ten-thousandths, rounded down, whatever the other settings are.
pub proof fn law_claim_fee_is_the_rate(m: Model, amount: i128)
    ensures
        match claim_fee(m, amount) {
            Some(fee) => rounds_to(fee as int, amount * m.withdrawal_fee_bps, 10_000),
            None => !fits(amount * m.withdrawal_fee_bps),
        },
        amount >= 0 && claim_fee(m, amount) is Some ==> {
            let fee = claim_fee(m, amount)->0;
            fee * 10_000 <= amount * m.withdrawal_fee_bps < (fee + 1) * 10_000
        },
        m.withdrawal_fee_bps == 0 ==> claim_fee(m, amount) == Some(0i128),
{
    law_mul_div_is_a_rounded_quotient(amount as int, m.withdrawal_fee_bps as int, 10_000);
    assert(amount * 0 == 0) by (nonlinear_arith);
    if amount >= 0 {
        assert(amount * m.withdrawal_fee_bps >= 0) by (nonlinear_arith)
            requires
                amount >= 0,
                m.withdrawal_fee_bps >= 0,
        ;
    }
}

/// What the answer to a claim tells: it is accepted exactly if its owner makes
/// it, after its time, in a running vault, and something is left after the fee.
pub proof fn law_answers_to_claims(m: Model, caller: Address, entry_id: u64)
    ensures
        ({
            let called = !m.locked && m.has_auth(caller);
            let running = called && m.admin is Some && !m.paused;
            let found = running && m.withdrawal_entries.contains_key(entry_id);
            let entry = m.withdrawal_entries[entry_id];
            let due = found && entry.owner == caller && entry.claimable_after <= m.timestamp;
            let fee = claim_fee(m, entry.redeem_amount);
            let net = entry.redeem_amount - fee->0;
            let bookable = fee->0 <= 0 || fits(m.total_fee_collected + fee->0);
            match claim_error(m, caller, entry_id) {
                None => due && fee is Some && 1 <= net <= i128::MAX && bookable && m.token
                    is Some,
                Some(VaultError::Reentrancy) => m.locked,
                Some(VaultError::NotAuthorized) => !m.locked && !m.has_auth(caller),
                Some(VaultError::NotInitialized) => called && (m.admin is None || due && fee
                    is Some && 1 <= net <= i128::MAX && bookable && m.token is None),
                Some(VaultError::VaultPaused) => called && m.admin is Some && m.paused,
                Some(VaultError::QueueEntryNotFound) => running
                    && !m.withdrawal_entries.contains_key(entry_id),
                Some(VaultError::InsufficientShares) => found && entry.owner != caller,
                Some(VaultError::QueueUnbondingPending) => found && entry.owner == caller
                    && m.timestamp < entry.claimable_after,
                Some(VaultError::ZeroAmount) => due && fee is Some && fits(net) && net < 1,
                Some(VaultError::MathOverflow) => due && (fee is None || !fits(net) || net >= 1
                    && !bookable),
                Some(_) => false,
            }
        }),
{
}

/// What a claim does: the entry is gone, its owner is sent what it owes less
/// the fee, the fee is collected, and one event reports it. Nothing else
/// changes.
pub proof fn law_claims_pay_and_nothing_else(m: Model, caller: Address, entry_id: u64)
    requires
        claim_error(m, caller, entry_id) is None,
    ensures
        ({
            let entry = m.withdrawal_entries[entry_id];
            let p = claim_pending(m, caller, entry_id);
            let after = after_claim(m, caller, entry_id);
            &&& p.fee_amount == claim_fee(m, entry.redeem_amount)->0
            &&& p.net_amount == entry.redeem_amount - p.fee_amount
            &&& p.entry == entry
            &&& p.entry_id == entry_id
            &&& p.caller == caller
            &&& p.transfer == (Transfer::Push {
                token: m.token->0,
                to: caller,
                amount: p.net_amount,
            })
            &&& entry.redeem_amount >= 0 ==> p.fee_amount * 10_000 <= entry.redeem_amount
                * m.withdrawal_fee_bps < (p.fee_amount + 1) * 10_000
            &&& entry.redeem_amount >= 0 ==> after.total_fee_collected == m.total_fee_collected
                + p.fee_amount
            &&& p.fee_amount <= 0 ==> after.total_fee_collected == m.total_fee_collected
            &&& after.withdrawal_entries == m.withdrawal_entries.remove(entry_id)
            &&& after.events == m.events.push(
                Event::WithdrawalClaimed {
                    caller,
                    entry_id,
                    redeem_amount: entry.redeem_amount,
                    fee_amount: p.fee_amount,
                    net_amount: p.net_amount,
                },
            )
            &&& after == (Model {
                withdrawal_entries: after.withdrawal_entries,
                total_fee_collected: after.total_fee_collected,
                events: after.events,
                ..m
            })
            &&& claiming(m, entry_id) == (Model { locked: true, events: m.events, ..after })
        }),
{
    let entry = m.withdrawal_entries[entry_id];
    law_claim_fee_is_the_rate(m, entry.redeem_amount);
    if entry.redeem_amount >= 0 {
        assert(entry.redeem_amount * m.withdrawal_fee_bps >= 0) by (nonlinear_arith)
            requires
                entry.redeem_amount >= 0,
                m.withdrawal_fee_bps >= 0,
        ;
    }
}

/// The end of a claim reports exactly what the claim was.
pub proof fn law_finished_claim_reports_itself(m: Model, p: PendingClaim)
    ensures
        claimed(m, p).events == m.events.push(
            Event::WithdrawalClaimed {
                caller: p.caller,
                entry_id: p.entry_id,
                redeem_amount: p.entry.redeem_amount,
                fee_amount: p.fee_amount,
                net_amount: p.net_amount,
            },
        ),
{
}

/// What the answer to a new withdrawal fee tells: the admin may set any fee of
/// at most 500 basis points.
pub proof fn law_answers_to_withdrawal_fees(m: Model, admin: Address, bps: u32)
    ensures
        match withdrawal_fee_error(m, admin, bps) {
            None => !m.locked && m.admin == Some(admin) && bps <= 500 && m.has_auth(admin),
            Some(VaultError::Reentrancy) => m.locked,
            Some(VaultError::NotInitialized) => !m.locked && m.admin is None,
            Some(VaultError::UpgradeUnauthorized) => !m.locked && m.admin is Some && m.admin
                != Some(admin),
            Some(VaultError::InvalidWithdrawalFee) => !m.locked && m.admin == Some(admin) && bps
                > 500,
            Some(VaultError::NotAuthorized) => !m.locked && m.admin == Some(admin) && bps <= 500
                && !m.has_auth(admin),
            Some(_) => false,
        },
{
}

/// A payment of fees is open to the admin, who needs a treasury if there is
/// something to pay. It sends everything that was collected to the treasury,
/// leaves nothing collected, and reports itself. Nothing else changes.
pub proof fn law_fees_go_to_the_treasury(m: Model, admin: Address)
    ensures
        ({
            let admitted = !m.locked && m.admin == Some(admin) && m.has_auth(admin);
            let owed = m.total_fee_collected > 0;
            match withdraw_fees_error(m, admin) {
                None => admitted && (owed ==> m.treasury is Some && m.token is Some),
                Some(VaultError::Reentrancy) => m.locked,
                Some(VaultError::NotInitialized) => !m.locked && (m.admin is None || admitted
                    && owed && (m.treasury is None || m.token is None)),
                Some(VaultError::UpgradeUnauthorized) => !m.locked && m.admin is Some && m.admin
                    != Some(admin),
                Some(VaultError::NotAuthorized) => !m.locked && m.admin == Some(admin)
                    && !m.has_auth(admin),
                Some(_) => false,
            }
        }),
        withdraw_fees_error(m, admin) is None && m.total_fee_collected > 0 ==> {
            let p = fees_pending(m, admin);
            let after = after_fee_withdrawal(m, admin);
            &&& p.transfer == (Transfer::Push {
                token: m.token->0,
                to: m.treasury->0,
                amount: m.total_fee_collected,
            })
            &&& p.fees == m.total_fee_collected
            &&& after.total_fee_collected == 0
            &&& after.events == m.events.push(
                Event::FeesWithdrawn {
                    admin,
                    fees: m.total_fee_collected,
                    treasury: m.treasury->0,
                },
            )
            &&& after == (Model { total_fee_collected: 0, events: after.events, ..m })
        },
{
}

/// The end of a payment of fees reports exactly what was paid.
pub proof fn law_finished_fee_payment_reports_itself(m: Model, p: PendingFees)
    ensures
        fees_withdrawn(m, p).events == m.events.push(
            Event::FeesWithdrawn { admin: p.admin, fees: p.fees, treasury: p.treasury },
        ),
{
}

/// What the answer to an upgrade tells, and what an upgrade does: the version
/// counts one more, an event names both versions, and nothing else changes.
pub proof fn law_upgrades_count_versions(m: Model)
    ensures
        match upgrade_error(m) {
            None => !m.locked && m.admin is Some && m.has_auth(m.admin->0) && m.layout_version
                == 1,
            Some(VaultError::Reentrancy) => m.locked,
            Some(VaultError::NotInitialized) => !m.locked && m.admin is None,
            Some(VaultError::UpgradeUnauthorized) => !m.locked && m.admin is Some && !m.has_auth(
                m.admin->0,
            ),
            Some(VaultError::StorageLayoutMismatch) => !m.locked && m.admin is Some && m.has_auth(
                m.admin->0,
            ) && m.layout_version != 1,
            Some(_) => false,
        },
        upgrade_error(m) is None && m.version < u32::MAX ==> {
            let after = upgraded(m);
            &&& after.version == m.version + 1
            &&& after.events == m.events.push(
                Event::Upgrade {
                    admin: m.admin->0,
                    old_version: m.version,
                    new_version: after.version,
                },
            )
            &&& after == (Model { version: after.version, events: after.events, ..m })
        },
{
}

} // verus!
