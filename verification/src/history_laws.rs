use crate::address::Address;
use crate::admin::{upgraded, withdraw_fees_error};
use crate::deposit::deposit_error;
use crate::distribution::{
    claimable, collect_error, distribute_yield_error, distribute_yield_token_error, distributed,
    distribution_credited, distribution_pending, settled,
};
use crate::env::Model;
use crate::errors::VaultError;
use crate::fee::perf_fee_of;
use crate::governance::executed;
use crate::guard::refused;
use crate::harvest::{
    harvest_error, harvest_pending, harvest_token_credited, harvest_token_error,
    harvest_token_pending, harvested_token, tripped,
};
use crate::multisig::operation_executed;
use crate::queue::claim_error;
use crate::queue_laws::{
    after_claim, after_fee_withdrawal, law_queue_ids_are_never_reused, queue_in_order,
};
use crate::share_laws::{
    after_deposit, after_emergency_withdraw, after_withdraw, law_deposit_keeps_share_sum,
    law_deposit_never_lowers_share_price, law_emergency_withdraw_keeps_share_sum,
    law_withdraw_keeps_share_sum, law_withdraw_never_lowers_share_price, price_not_lower,
    shares_add_up,
};
use crate::vault::{initialize_error, initialized};
use crate::withdraw::{emergency_withdraw_error, queued, redemption_for, withdraw_error};
use crate::yield_laws::{
    after_collection, after_distribution, after_harvest, law_fee_is_part_of_the_amount,
    law_harvest_dilutes_nobody, law_harvest_token_dilutes_nobody,
};
use vstd::prelude::*;

verus! {

/// Something that happens to the vault: a call from start to end, whoever
/// makes it and whatever the vault's token balance is at the time, or a change
/// of anything but shares, assets and the queue. No call takes the admin away,
/// so a change leaves an admin where there was one.
pub enum Step {
    Deposit { caller: Address, amount: i128, balance: i128 },
    Withdraw { caller: Address, shares: i128, balance: i128 },
    EmergencyWithdraw { caller: Address, shares: i128, balance: i128 },
    Claim { caller: Address, entry_id: u64 },
    Harvest { caller: Address, amount: i128, balance: i128 },
    HarvestToken { caller: Address, token: Address, amount: i128, value: i128, balance: i128 },
    Distribute { caller: Address, amount: i128, balance: i128 },
    DistributeToken { caller: Address, token: Address, amount: i128, value: i128, balance: i128 },
    Collect { caller: Address },
    WithdrawFees { admin: Address },
    Configure { settings: Model },
}

/// The vault after a step. A refused call leaves what its contract says.
pub open spec fn after_step(m: Model, step: Step) -> Model {
    match step {
        Step::Deposit { caller, amount, balance } => match deposit_error(
            m,
            caller,
            amount,
            balance,
        ) {
            None => after_deposit(m, caller, amount),
            Some(e) => refused(m, e, balance),
        },
        Step::Withdraw { caller, shares, balance } => match withdraw_error(
            m,
            caller,
            shares,
            balance,
        ) {
            None => after_withdraw(m, caller, shares),
            Some(e) => if e != VaultError::WithdrawalQueued {
                refused(m, e, balance)
            } else if m.withdrawal_next_id < u64::MAX {
                queued(m, caller, shares)
            } else {
                m
            },
        },
        Step::EmergencyWithdraw { caller, shares, balance } => if emergency_withdraw_error(
            m,
            caller,
            shares,
            balance,
        ) is None {
            after_emergency_withdraw(m, caller, shares, balance)
        } else {
            m
        },
        Step::Claim { caller, entry_id } => if claim_error(m, caller, entry_id) is None {
            after_claim(m, caller, entry_id)
        } else {
            m
        },
        Step::Harvest { caller, amount, balance } => match harvest_error(
            m,
            caller,
            amount,
            balance,
        ) {
            None => after_harvest(m, caller, amount),
            Some(e) => if e == VaultError::CircuitBreakerTripped {
                tripped(m, amount)
            } else {
                refused(m, e, balance)
            },
        },
        Step::HarvestToken { caller, token, amount, value, balance } => match harvest_token_error(
            m,
            caller,
            token,
            amount,
            value,
            balance,
        ) {
            None => harvested_token(
                Model { locked: true, ..harvest_token_credited(m, value) },
                harvest_token_pending(m, caller, token, amount, value),
            ),
            Some(e) => refused(m, e, balance),
        },
        Step::Distribute { caller, amount, balance } => match distribute_yield_error(
            m,
            caller,
            amount,
            balance,
        ) {
            None => after_distribution(m, caller, amount),
            Some(e) => refused(m, e, balance),
        },
        Step::DistributeToken { caller, token, amount, value, balance } => match
        distribute_yield_token_error(m, caller, token, amount, value, balance) {
            None => distributed(
                Model { locked: true, ..distribution_credited(m, value) },
                distribution_pending(m, caller, Some(token), amount, value),
            ),
            Some(e) => refused(m, e, balance),
        },
        Step::Collect { caller } => if collect_error(m, caller) is Some {
            m
        } else if claimable(m, caller) > 0 {
            after_collection(m, caller)
        } else {
            settled(m, caller)
        },
        Step::WithdrawFees { admin } => if withdraw_fees_error(m, admin) is None
            && m.total_fee_collected > 0 {
            after_fee_withdrawal(m, admin)
        } else {
            m
        },
        Step::Configure { settings } => Model {
            balances: m.balances,
            total_shares: m.total_shares,
            total_deposited: m.total_deposited,
            withdrawal_entries: m.withdrawal_entries,
            withdrawal_next_id: m.withdrawal_next_id,
            admin: if settings.admin is None {
                m.admin
            } else {
                settings.admin
            },
            ..settings
        },
    }
}

/// The vault after a history of steps.
pub open spec fn after_history(m: Model, history: Seq<Step>) -> Model
    decreases history.len(),
{
    if history.len() == 0 {
        m
    } else {
        after_step(after_history(m, history.drop_last()), history.last())
    }
}

/// Whether a history never sets a performance fee of more than the whole.
pub open spec fn fees_in_range(history: Seq<Step>) -> bool {
    forall|i: int|
        0 <= i < history.len() ==> match #[trigger] history[i] {
            Step::Configure { settings } => settings.perf_fee_bps <= 10_000,
            _ => true,
        }
}

/// Whether nobody collects distributed yield in a history.
pub open spec fn no_collections(history: Seq<Step>) -> bool {
    forall|i: int| 0 <= i < history.len() ==> !(#[trigger] history[i] is Collect)
}

/// Whatever happens in one step, the shares of all holders go on adding up to
/// the shares outstanding, and the queue stays in order.
pub proof fn law_every_step_keeps_shares_and_queue(m: Model, step: Step)
    requires
        shares_add_up(m),
        queue_in_order(m),
    ensures
        shares_add_up(after_step(m, step)),
        queue_in_order(after_step(m, step)),
{
    match step {
        Step::Deposit { caller, amount, balance } => {
            if deposit_error(m, caller, amount, balance) is None {
                law_deposit_keeps_share_sum(m, caller, amount, balance);
            }
        },
        Step::Withdraw { caller, shares, balance } => {
            let error = withdraw_error(m, caller, shares, balance);
            if error is None || error == Some(VaultError::WithdrawalQueued) {
                law_withdraw_keeps_share_sum(m, caller, shares, balance);
            }
            if error == Some(VaultError::WithdrawalQueued) && m.withdrawal_next_id < u64::MAX {
                law_queue_ids_are_never_reused(m, caller, shares, balance);
            }
        },
        Step::EmergencyWithdraw { caller, shares, balance } => {
            if emergency_withdraw_error(m, caller, shares, balance) is None {
                law_emergency_withdraw_keeps_share_sum(m, caller, shares, balance);
            }
        },
        _ => {},
    }
}

/// Whatever happens to a vault, in whatever order, the shares of all holders
/// add up to the shares outstanding, and the queue stays in order.
pub proof fn law_any_history_keeps_shares_and_queue(m: Model, history: Seq<Step>)
    requires
        shares_add_up(m),
        queue_in_order(m),
    ensures
        shares_add_up(after_history(m, history)),
        queue_in_order(after_history(m, history)),
    decreases history.len(),
{
    if history.len() > 0 {
        law_any_history_keeps_shares_and_queue(m, history.drop_last());
        law_every_step_keeps_shares_and_queue(
            after_history(m, history.drop_last()),
            history.last(),
        );
    }
}

/// Whatever happens to a vault without collections, in whatever order, the
/// assets that it tracks never fall below nothing.
pub proof fn law_any_history_keeps_assets(m: Model, history: Seq<Step>)
    requires
        m.perf_fee_bps <= 10_000,
        m.total_deposited >= 0,
        fees_in_range(history),
        no_collections(history),
    ensures
        after_history(m, history).perf_fee_bps <= 10_000,
        after_history(m, history).total_deposited >= 0,
    decreases history.len(),
{
    if history.len() > 0 {
        let earlier = history.drop_last();
        assert forall|i: int| 0 <= i < earlier.len() implies match #[trigger] earlier[i] {
            Step::Configure { settings } => settings.perf_fee_bps <= 10_000,
            _ => true,
        } && !(earlier[i] is Collect) by {
            assert(earlier[i] == history[i]);
        }
        law_any_history_keeps_assets(m, earlier);
        let n = after_history(m, earlier);
        let step = history[history.len() - 1];
        match step {
            Step::Harvest { caller, amount, balance } => {
                if harvest_error(n, caller, amount, balance) is None {
                    law_fee_is_part_of_the_amount(amount, n.perf_fee_bps);
                }
            },
            Step::HarvestToken { caller, token, amount, value, balance } => {
                if harvest_token_error(n, caller, token, amount, value, balance) is None
                    && perf_fee_of(value, n.perf_fee_bps) is Some {
                    law_fee_is_part_of_the_amount(value, n.perf_fee_bps);
                }
            },
            Step::Distribute { caller, amount, balance } => {
                if distribute_yield_error(n, caller, amount, balance) is None {
                    law_fee_is_part_of_the_amount(amount, n.perf_fee_bps);
                }
            },
            Step::DistributeToken { caller, token, amount, value, balance } => {
                if distribute_yield_token_error(n, caller, token, amount, value, balance)
                    is None {
                    law_fee_is_part_of_the_amount(value, n.perf_fee_bps);
                }
            },
            _ => {},
        }
    }
}

/// Whether a vault has shares outstanding throughout a history.
pub open spec fn stays_in_use(m: Model, history: Seq<Step>) -> bool
    decreases history.len(),
{
    &&& after_history(m, history).total_shares > 0
    &&& history.len() > 0 ==> stays_in_use(m, history.drop_last())
}

/// Whether nobody withdraws in an emergency in a history.
pub open spec fn no_emergencies(history: Seq<Step>) -> bool {
    forall|i: int| 0 <= i < history.len() ==> !(#[trigger] history[i] is EmergencyWithdraw)
}

/// A share that is worth no less than one that is worth no less than a third
/// is worth no less than the third.
proof fn lemma_price_is_transitive(a: Model, b: Model, c: Model)
    requires
        a.total_shares > 0,
        b.total_shares > 0,
        c.total_shares > 0,
        price_not_lower(a, b),
        price_not_lower(b, c),
    ensures
        price_not_lower(a, c),
{
    let (da, sa) = (a.total_deposited as int, a.total_shares as int);
    let (db, sb) = (b.total_deposited as int, b.total_shares as int);
    let (dc, sc) = (c.total_deposited as int, c.total_shares as int);
    assert((db * sa) * sc >= (da * sb) * sc) by (nonlinear_arith)
        requires
            db * sa >= da * sb,
            sc > 0,
    ;
    assert((dc * sb) * sa >= (db * sc) * sa) by (nonlinear_arith)
        requires
            dc * sb >= db * sc,
            sa > 0,
    ;
    assert((db * sa) * sc == (db * sc) * sa) by (nonlinear_arith);
    assert((dc * sb) * sa == (dc * sa) * sb) by (nonlinear_arith);
    assert((da * sb) * sc == (da * sc) * sb) by (nonlinear_arith);
    assert(dc * sa >= da * sc) by (nonlinear_arith)
        requires
            (dc * sa) * sb >= (da * sc) * sb,
            sb > 0,
    ;
}

/// No step but a collection or an emergency withdrawal makes the shares that
/// exist worth less.
pub proof fn law_every_step_keeps_share_price(m: Model, step: Step)
    requires
        m.perf_fee_bps <= 10_000,
        m.total_deposited >= 0,
        m.total_shares > 0,
        !(step is Collect),
        !(step is EmergencyWithdraw),
    ensures
        price_not_lower(m, after_step(m, step)),
{
    let (d, s) = (m.total_deposited as int, m.total_shares as int);
    match step {
        Step::Deposit { caller, amount, balance } => {
            if deposit_error(m, caller, amount, balance) is None {
                law_deposit_never_lowers_share_price(m, caller, amount, balance);
            }
        },
        Step::Withdraw { caller, shares, balance } => {
            let error = withdraw_error(m, caller, shares, balance);
            if error is None || error == Some(VaultError::WithdrawalQueued) {
                law_withdraw_never_lowers_share_price(m, caller, shares, balance);
            }
        },
        Step::Harvest { caller, amount, balance } => {
            if harvest_error(m, caller, amount, balance) is None {
                law_harvest_dilutes_nobody(m, caller, amount, balance);
            }
        },
        Step::HarvestToken { caller, token, amount, value, balance } => {
            if harvest_token_error(m, caller, token, amount, value, balance) is None {
                law_harvest_token_dilutes_nobody(m, caller, token, amount, value, balance);
            }
        },
        Step::Distribute { caller, amount, balance } => {
            if distribute_yield_error(m, caller, amount, balance) is None {
                law_fee_is_part_of_the_amount(amount, m.perf_fee_bps);
                let e = after_step(m, step).total_deposited as int;
                assert(e * s >= d * s) by (nonlinear_arith)
                    requires
                        e >= d,
                        s > 0,
                ;
            }
        },
        Step::DistributeToken { caller, token, amount, value, balance } => {
            if distribute_yield_token_error(m, caller, token, amount, value, balance) is None {
                law_fee_is_part_of_the_amount(value, m.perf_fee_bps);
                let e = after_step(m, step).total_deposited as int;
                assert(e * s >= d * s) by (nonlinear_arith)
                    requires
                        e >= d,
                        s > 0,
                ;
            }
        },
        _ => {},
    }
}

/// Through any history without collections and emergency withdrawals in which
/// shares stay outstanding, a share never loses worth.
pub proof fn law_any_history_keeps_share_price(m: Model, history: Seq<Step>)
    requires
        m.perf_fee_bps <= 10_000,
        m.total_deposited >= 0,
        fees_in_range(history),
        no_collections(history),
        no_emergencies(history),
        stays_in_use(m, history),
    ensures
        price_not_lower(m, after_history(m, history)),
    decreases history.len(),
{
    if history.len() > 0 {
        let earlier = history.drop_last();
        assert forall|i: int| 0 <= i < earlier.len() implies match #[trigger] earlier[i] {
            Step::Configure { settings } => settings.perf_fee_bps <= 10_000,
            _ => true,
        } && !(earlier[i] is Collect) && !(earlier[i] is EmergencyWithdraw) by {
            assert(earlier[i] == history[i]);
        }
        law_any_history_keeps_share_price(m, earlier);
        law_any_history_keeps_assets(m, earlier);
        let n = after_history(m, earlier);
        assert(history.last() == history[history.len() - 1]);
        law_every_step_keeps_share_price(n, history.last());
        lemma_in_use_at_start(m, earlier);
        lemma_price_is_transitive(m, n, after_history(m, history));
    }
}

/// A vault that stays in use was in use at the start.
proof fn lemma_in_use_at_start(m: Model, history: Seq<Step>)
    requires
        stays_in_use(m, history),
    ensures
        m.total_shares > 0,
    decreases history.len(),
{
    if history.len() > 0 {
        lemma_in_use_at_start(m, history.drop_last());
    }
}

/// The initialisation of a vault without shares keeps them adding up and the
/// queue in order.
pub proof fn law_initialization_keeps_shares_and_queue(
    m: Model,
    admin: Address,
    token: Address,
    signers: Seq<Address>,
    decimals: u32,
    price_precision: u32,
    name: Seq<char>,
    symbol: Seq<char>,
)
    requires
        shares_add_up(m),
        queue_in_order(m),
        m.total_shares == 0,
        initialize_error(m) is None,
    ensures
        ({
            let after = initialized(
                m,
                admin,
                token,
                signers,
                decimals,
                price_precision,
                name,
                symbol,
            );
            shares_add_up(after) && queue_in_order(after) && after.total_deposited == 0
        }),
{
}

/// The assets that a step adds to those tracked: what is deposited, and what is
/// harvested or distributed after its fee.
pub open spec fn came_in(m: Model, step: Step) -> int {
    match step {
        Step::Deposit { caller, amount, balance } => if deposit_error(
            m,
            caller,
            amount,
            balance,
        ) is None {
            amount as int
        } else {
            0
        },
        Step::Harvest { caller, amount, balance } => if harvest_error(
            m,
            caller,
            amount,
            balance,
        ) is None {
            harvest_pending(m, caller, amount).yield_after_fee as int
        } else {
            0
        },
        Step::HarvestToken { caller, token, amount, value, balance } => if harvest_token_error(
            m,
            caller,
            token,
            amount,
            value,
            balance,
        ) is None {
            harvest_token_pending(m, caller, token, amount, value).net_underlying as int
        } else {
            0
        },
        Step::Distribute { caller, amount, balance } => if distribute_yield_error(
            m,
            caller,
            amount,
            balance,
        ) is None {
            distribution_pending(m, caller, None, amount, amount).net_yield as int
        } else {
            0
        },
        Step::DistributeToken { caller, token, amount, value, balance } => if
        distribute_yield_token_error(m, caller, token, amount, value, balance) is None {
            distribution_pending(m, caller, Some(token), amount, value).net_yield as int
        } else {
            0
        },
        _ => 0,
    }
}

/// The assets that a step takes from those tracked: what is withdrawn, at once
/// or into the queue, and what is collected.
pub open spec fn went_out(m: Model, step: Step) -> int {
    match step {
        Step::Withdraw { caller, shares, balance } => {
            let error = withdraw_error(m, caller, shares, balance);
            if error is None || error == Some(VaultError::WithdrawalQueued)
                && m.withdrawal_next_id < u64::MAX {
                redemption_for(m, shares)->0 as int
            } else {
                0
            }
        },
        Step::Collect { caller } => if collect_error(m, caller) is None && claimable(m, caller)
            > 0 {
            claimable(m, caller)
        } else {
            0
        },
        _ => 0,
    }
}

/// What all steps of a history add to the assets.
pub open spec fn all_that_came_in(m: Model, history: Seq<Step>) -> int
    decreases history.len(),
{
    if history.len() == 0 {
        0
    } else {
        all_that_came_in(m, history.drop_last()) + came_in(
            after_history(m, history.drop_last()),
            history.last(),
        )
    }
}

/// What all steps of a history take from the assets.
pub open spec fn all_that_went_out(m: Model, history: Seq<Step>) -> int
    decreases history.len(),
{
    if history.len() == 0 {
        0
    } else {
        all_that_went_out(m, history.drop_last()) + went_out(
            after_history(m, history.drop_last()),
            history.last(),
        )
    }
}

/// A step changes the tracked assets by what comes in less what goes out. An
/// emergency withdrawal is left out: it pays by the balance, not by the assets.
pub proof fn law_every_step_accounts_for_assets(m: Model, step: Step)
    requires
        !(step is EmergencyWithdraw),
    ensures
        after_step(m, step).total_deposited == m.total_deposited + came_in(m, step) - went_out(
            m,
            step,
        ),
{
}

/// The tracked assets are the sum of everything deposited, harvested and
/// distributed, after fees, less everything withdrawn and collected, through
/// any history without emergency withdrawals.
pub proof fn law_any_history_accounts_for_assets(m: Model, history: Seq<Step>)
    requires
        no_emergencies(history),
    ensures
        after_history(m, history).total_deposited == m.total_deposited + all_that_came_in(
            m,
            history,
        ) - all_that_went_out(m, history),
    decreases history.len(),
{
    if history.len() > 0 {
        let earlier = history.drop_last();
        assert forall|i: int| 0 <= i < earlier.len() implies !(#[trigger] earlier[i] is
            EmergencyWithdraw) by {
            assert(earlier[i] == history[i]);
        }
        law_any_history_accounts_for_assets(m, earlier);
        assert(history.last() == history[history.len() - 1]);
        law_every_step_accounts_for_assets(after_history(m, earlier), history.last());
    }
}

/// An initialised vault stays initialised through any history, and cannot be
/// initialised again. Neither an upgrade nor a proposal nor an operation
/// changes that.
pub proof fn law_initialized_vault_stays_initialized(
    m: Model,
    history: Seq<Step>,
    executor: Address,
    proposal_id: u64,
    op_id: u64,
)
    requires
        m.admin is Some,
    ensures
        after_history(m, history).admin is Some,
        initialize_error(after_history(m, history)) == Some(VaultError::AlreadyInitialized),
        upgraded(m).admin is Some,
        executed(m, proposal_id).admin is Some,
        operation_executed(m, executor, op_id).admin is Some,
    decreases history.len(),
{
    if history.len() > 0 {
        law_initialized_vault_stays_initialized(
            m,
            history.drop_last(),
            executor,
            proposal_id,
            op_id,
        );
        lemma_step_keeps_admin(after_history(m, history.drop_last()), history.last());
    }
}

/// No step takes the admin away.
proof fn lemma_step_keeps_admin(m: Model, step: Step)
    requires
        m.admin is Some,
    ensures
        after_step(m, step).admin is Some,
{
}

/// Share decimals, price precision, name and symbol are set once: no call
/// that moves assets, no upgrade, no proposal and no operation changes them.
pub proof fn law_metadata_is_immutable(
    m: Model,
    step: Step,
    executor: Address,
    proposal_id: u64,
    op_id: u64,
)
    requires
        !(step is Configure),
    ensures
        same_metadata(m, after_step(m, step)),
        same_metadata(m, upgraded(m)),
        same_metadata(m, executed(m, proposal_id)),
        same_metadata(m, operation_executed(m, executor, op_id)),
{
    match step {
        Step::Deposit { caller, amount, balance } => {
            assert(same_metadata(m, after_deposit(m, caller, amount)));
        },
        Step::Withdraw { caller, shares, balance } => {
            assert(same_metadata(m, after_withdraw(m, caller, shares)));
            assert(same_metadata(m, queued(m, caller, shares)));
        },
        Step::EmergencyWithdraw { caller, shares, balance } => {
            assert(same_metadata(m, after_emergency_withdraw(m, caller, shares, balance)));
        },
        Step::Claim { caller, entry_id } => {
            assert(same_metadata(m, after_claim(m, caller, entry_id)));
        },
        Step::Harvest { caller, amount, balance } => {
            assert(same_metadata(m, after_harvest(m, caller, amount)));
            assert(same_metadata(m, tripped(m, amount)));
        },
        Step::Distribute { caller, amount, balance } => {
            assert(same_metadata(m, after_distribution(m, caller, amount)));
        },
        Step::Collect { caller } => {
            assert(same_metadata(m, after_collection(m, caller)));
        },
        _ => {},
    }
}

/// Whether two states have the same share decimals, price precision, name and
/// symbol.
pub open spec fn same_metadata(m: Model, n: Model) -> bool {
    &&& m.decimals == n.decimals
    &&& m.price_precision == n.price_precision
    &&& m.vault_name == n.vault_name
    &&& m.vault_symbol == n.vault_symbol
}

} // verus!
