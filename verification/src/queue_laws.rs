use crate::address::Address;
use crate::admin::{fees_owed, fees_pending, fees_withdrawn, withdraw_fees_error};
use crate::deposit::deposit_error;
use crate::distribution::{claimable, collect_error, collection_pending, distribute_yield_error};
use crate::env::Model;
use crate::errors::VaultError;
use crate::harvest::harvest_error;
use crate::queue::{
    claim_error, claim_fee, claim_pending, claimed, claiming, unclaimed, withdrawal_fee_error,
    MAX_WITHDRAWAL_FEE_BPS,
};
use crate::share_laws::{after_deposit, after_withdraw, lemma_floor};
use crate::storage::WithdrawalEntry;
use crate::sums::{lemma_sum_insert, lemma_sum_remove, sum};
use crate::withdraw::{queued, redemption_for, withdraw_error, withdraw_pending};
use crate::yield_laws::{after_collection, after_distribution, after_harvest};
use vstd::prelude::*;

verus! {

/// Every queue entry has an ID that was handed out and stands for some tokens.
pub open spec fn queue_in_order(m: Model) -> bool {
    &&& m.withdrawal_entries.dom().finite()
    &&& forall|id: u64| #[trigger]
        m.withdrawal_entries.contains_key(id) ==> id < m.withdrawal_next_id
            && m.withdrawal_entries[id].redeem_amount > 0
}

/// The tokens that each queue entry stands for.
pub open spec fn queued_amounts(m: Model) -> Map<u64, int> {
    m.withdrawal_entries.map_values(|e: WithdrawalEntry| e.redeem_amount as int)
}

/// The underlying tokens that the vault owes to somebody: to shareholders, to
/// the treasury, and to those who wait in the queue.
pub open spec fn owed(m: Model) -> int {
    m.total_deposited + m.total_fee_collected + sum(queued_amounts(m))
}

/// The queue of a fresh vault is in order.
pub proof fn law_fresh_queue_is_in_order(timestamp: u64)
    ensures
        queue_in_order(Model::fresh(timestamp)),
        owed(Model::fresh(timestamp)) == 0,
{
    assert(queued_amounts(Model::fresh(timestamp)).dom() =~= Set::empty());
}

/// A queued withdrawal gets an ID of its own, and the queue stays in order.
pub proof fn law_queue_ids_are_never_reused(
    m: Model,
    caller: Address,
    shares: i128,
    balance: i128,
)
    requires
        queue_in_order(m),
        m.withdrawal_next_id < u64::MAX,
        withdraw_error(m, caller, shares, balance) == Some(VaultError::WithdrawalQueued),
    ensures
        !m.withdrawal_entries.contains_key(m.withdrawal_next_id),
        queued(m, caller, shares).withdrawal_next_id == m.withdrawal_next_id + 1,
        queue_in_order(queued(m, caller, shares)),
        forall|id: u64| #[trigger]
            m.withdrawal_entries.contains_key(id) ==> queued(
                m,
                caller,
                shares,
            ).withdrawal_entries[id] == m.withdrawal_entries[id],
{
}

/// A claim leaves the queue in order.
pub proof fn law_claims_keep_queue_in_order(m: Model, entry_id: u64)
    requires
        queue_in_order(m),
    ensures
        queue_in_order(claiming(m, entry_id)),
{
}

/// A queued withdrawal is worth what an immediate one would have been: its
/// owner's claim, together with the fee, is the redemption of the shares when
/// they were burned.
pub proof fn law_queued_withdrawal_keeps_its_worth(
    m: Model,
    caller: Address,
    shares: i128,
    balance: i128,
    later: Model,
)
    requires
        withdraw_error(m, caller, shares, balance) == Some(VaultError::WithdrawalQueued),
        later.withdrawal_entries.contains_key(m.withdrawal_next_id),
        later.withdrawal_entries[m.withdrawal_next_id] == queued(
            m,
            caller,
            shares,
        ).withdrawal_entries[m.withdrawal_next_id],
        claim_error(later, caller, m.withdrawal_next_id) is None,
    ensures
        ({
            let p = claim_pending(later, caller, m.withdrawal_next_id);
            p.net_amount + p.fee_amount == redemption_for(m, shares)->0
        }),
{
}

/// A queued withdrawal can be claimed by nobody but its owner, and not before
/// its time.
pub proof fn law_claims_are_for_the_owner_in_time(
    m: Model,
    caller: Address,
    shares: i128,
    later: Model,
    claimer: Address,
)
    requires
        later.withdrawal_entries.contains_key(m.withdrawal_next_id),
        later.withdrawal_entries[m.withdrawal_next_id] == queued(
            m,
            caller,
            shares,
        ).withdrawal_entries[m.withdrawal_next_id],
        m.timestamp + m.withdrawal_unbonding_secs <= u64::MAX,
    ensures
        claimer != caller ==> claim_error(later, claimer, m.withdrawal_next_id) is Some,
        later.timestamp < m.timestamp + m.withdrawal_unbonding_secs ==> claim_error(
            later,
            claimer,
            m.withdrawal_next_id,
        ) is Some,
{
}

/// A claimed entry is gone: nobody can claim it again.
pub proof fn law_claims_happen_once(m: Model, caller: Address, entry_id: u64, again: Address)
    requires
        claim_error(m, caller, entry_id) is None,
    ensures
        claim_error(
            after_claim(m, caller, entry_id),
            again,
            entry_id,
        ) is Some,
        m.has_auth(again) ==> claim_error(
            after_claim(m, caller, entry_id),
            again,
            entry_id,
        ) == Some(VaultError::QueueEntryNotFound),
{
}

/// A claim whose transfer fails leaves no trace.
pub proof fn law_failed_claim_leaves_no_trace(m: Model, caller: Address, entry_id: u64)
    requires
        claim_error(m, caller, entry_id) is None,
    ensures
        unclaimed(claiming(m, entry_id), claim_pending(m, caller, entry_id)) == m,
{
    assert(unclaimed(
        claiming(m, entry_id),
        claim_pending(m, caller, entry_id),
    ).withdrawal_entries =~= m.withdrawal_entries);
}

/// A payment of fees whose transfer fails leaves no trace, and after one that
/// succeeds no fees are left.
pub proof fn law_fees_are_paid_or_owed(m: Model, admin: Address)
    requires
        withdraw_fees_error(m, admin) is None,
        m.total_fee_collected > 0,
    ensures
        after_fee_withdrawal(m, admin).total_fee_collected == 0,
        fees_owed(
            Model { locked: true, total_fee_collected: 0, ..m },
            fees_pending(m, admin),
        ) == m,
{
}

/// No withdrawal fee above 5% can be set, and a fee of at most 5% takes no
/// more than a twentieth of a redemption.
pub proof fn law_withdrawal_fee_is_at_most_a_twentieth(
    m: Model,
    admin: Address,
    bps: u32,
    amount: i128,
)
    ensures
        withdrawal_fee_error(m, admin, bps) is None ==> bps <= MAX_WITHDRAWAL_FEE_BPS,
        m.withdrawal_fee_bps <= MAX_WITHDRAWAL_FEE_BPS && amount >= 0 && claim_fee(m, amount)
            is Some ==> 0 <= claim_fee(m, amount)->0 * 20 <= amount,
{
    if m.withdrawal_fee_bps <= MAX_WITHDRAWAL_FEE_BPS && amount >= 0 && claim_fee(m, amount)
        is Some {
        let a = amount as int;
        let b = m.withdrawal_fee_bps as int;
        assert(0 <= a * b <= a * 500) by (nonlinear_arith)
            requires
                a >= 0,
                0 <= b <= 500,
        ;
        lemma_floor(a * b, 10_000);
    }
}

/// The vault after a claim from start to end.
pub open spec fn after_claim(m: Model, caller: Address, entry_id: u64) -> Model {
    claimed(claiming(m, entry_id), claim_pending(m, caller, entry_id))
}

/// The vault after a payment of fees from start to end.
pub open spec fn after_fee_withdrawal(m: Model, admin: Address) -> Model {
    fees_withdrawn(
        Model { locked: true, total_fee_collected: 0, ..m },
        fees_pending(m, admin),
    )
}

/// Every underlying token that comes in by a deposit, a harvest or a
/// distribution is owed to somebody from then on.
pub proof fn law_incoming_tokens_are_owed(m: Model, caller: Address, amount: i128, balance: i128)
    ensures
        deposit_error(m, caller, amount, balance) is None ==> owed(
            after_deposit(m, caller, amount),
        ) == owed(m) + amount,
        harvest_error(m, caller, amount, balance) is None ==> owed(
            after_harvest(m, caller, amount),
        ) == owed(m) + amount,
        distribute_yield_error(m, caller, amount, balance) is None ==> owed(
            after_distribution(m, caller, amount),
        ) == owed(m) + amount,
{
}

/// Every underlying token that goes out by a withdrawal, a claim, a
/// collection or a payment of fees was owed until then, and queueing a
/// withdrawal changes only to whom.
pub proof fn law_outgoing_tokens_were_owed(
    m: Model,
    caller: Address,
    shares: i128,
    entry_id: u64,
    balance: i128,
)
    requires
        queue_in_order(m),
    ensures
        withdraw_error(m, caller, shares, balance) is None ==> owed(
            after_withdraw(m, caller, shares),
        ) == owed(m) - withdraw_pending(m, caller, shares).redeem_amount,
        withdraw_error(m, caller, shares, balance) == Some(VaultError::WithdrawalQueued)
            ==> owed(queued(m, caller, shares)) == owed(m),
        claim_error(m, caller, entry_id) is None ==> owed(after_claim(m, caller, entry_id))
            == owed(m) - claim_pending(m, caller, entry_id).net_amount,
        collect_error(m, caller) is None && claimable(m, caller) > 0 ==> owed(
            after_collection(m, caller),
        ) == owed(m) - collection_pending(m, caller).amount,
        withdraw_fees_error(m, caller) is None && m.total_fee_collected > 0 ==> owed(
            after_fee_withdrawal(m, caller),
        ) == owed(m) - fees_pending(m, caller).fees,
{
    let entries = queued_amounts(m);
    assert(entries.dom() =~= m.withdrawal_entries.dom());
    let id = m.withdrawal_next_id;
    assert(!m.withdrawal_entries.contains_key(id));
    let q = queued(m, caller, shares);
    lemma_sum_insert(entries, id, q.withdrawal_entries[id].redeem_amount as int);
    assert(queued_amounts(q) =~= entries.insert(
        id,
        q.withdrawal_entries[id].redeem_amount as int,
    ));
    if claim_error(m, caller, entry_id) is None {
        let amount = m.withdrawal_entries[entry_id].redeem_amount as int;
        assert(amount * m.withdrawal_fee_bps >= 0) by (nonlinear_arith)
            requires
                amount > 0,
        ;
        lemma_floor(amount * m.withdrawal_fee_bps, 10_000);
        lemma_sum_remove(entries, entry_id);
        assert(queued_amounts(claiming(m, entry_id)) =~= entries.remove(entry_id));
    }
}

} // verus!
