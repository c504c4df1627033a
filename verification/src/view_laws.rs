use crate::address::Address;
use crate::admin::{after_pause, after_unpause};
use crate::env::Model;
use crate::errors::VaultError;
use crate::events::Event;
use crate::foundation_laws::{law_mul_div_is_a_rounded_quotient, rounds_to};
use crate::math::fits;
use crate::oracle::oracle_price_error;
use crate::storage::DataKey;
use crate::vault::{initialize_error, initialized};
use crate::views::{bump_count, share_price_of, snapshots_between, usd_value, user_keys};
use vstd::prelude::*;

verus! {

/// The share price is the assets per share, scaled by the precision and rounded
/// toward zero; nothing where it cannot be computed.
pub proof fn law_share_price_is_assets_per_share(m: Model)
    ensures
        ({
            let scaled = m.total_deposited * m.price_precision;
            let computable = m.total_shares != 0 && fits(scaled) && !(m.total_shares == -1
                && scaled == i128::MIN);
            &&& computable ==> rounds_to(share_price_of(m) as int, scaled, m.total_shares as int)
            &&& !computable ==> share_price_of(m) == 0
        }),
{
    law_mul_div_is_a_rounded_quotient(
        m.total_deposited as int,
        m.price_precision as int,
        m.total_shares as int,
    );
    if m.total_shares == -1 && m.total_deposited * m.price_precision == i128::MIN {
        assert(crate::math::quotient(i128::MIN as int, -1) == -(i128::MIN));
    }
}

/// The value in micro-USD is the assets times the oracle's price, in millionths
/// and rounded toward zero, for a quote that is sane and fresh; and nothing
/// without an oracle, without such a quote, or where it cannot be computed.
pub proof fn law_usd_value_is_assets_at_the_price(m: Model, price: i128, updated_at: u64)
    ensures
        ({
            let value = usd_value(m, Some((price, updated_at)));
            let quoted = m.oracle_address is Some && 0 < price
                <= 1_000_000_000_000_000_000_000_000 && m.timestamp <= updated_at
                + m.oracle_max_age && fits(m.total_deposited * price);
            &&& quoted ==> rounds_to(value as int, m.total_deposited * price, 1_000_000)
            &&& !quoted ==> value == 0
            &&& usd_value(m, None) == 0
        }),
{
    law_mul_div_is_a_rounded_quotient(m.total_deposited as int, price as int, 1_000_000);
    assert(oracle_price_error(m.timestamp, price, updated_at, m.oracle_max_age) is None <==> 0
        < price <= 1_000_000_000_000_000_000_000_000 && m.timestamp <= updated_at
        + m.oracle_max_age);
}

/// A list of snapshots goes through the timestamps in order: each that lies in
/// the range and has a recorded price gives one entry with that price, and no
/// other gives any.
pub proof fn law_snapshot_lists_follow_the_timestamps(
    m: Model,
    timestamps: Seq<u64>,
    ts: u64,
    from: u64,
    to: u64,
)
    ensures
        snapshots_between(m, Seq::empty(), from, to).len() == 0,
        ({
            let before = snapshots_between(m, timestamps, from, to);
            let after = snapshots_between(m, timestamps.push(ts), from, to);
            let listed = from <= ts && ts <= to && m.price_snapshots.contains_key(ts);
            &&& listed ==> after == before.push((ts, m.price_snapshots[ts]))
            &&& !listed ==> after == before
        }),
{
    assert(timestamps.push(ts).drop_last() =~= timestamps);
}

/// The entries of a user are named exactly if they are stored, each once, and
/// counted together with the instance.
pub proof fn law_user_entries_are_counted(m: Model, user: Address, key: DataKey)
    ensures
        ({
            let keys = user_keys(m, user);
            let balance = m.balances.contains_key(user.id);
            let checkpoint = m.user_checkpoints.contains_key(user.id);
            let stored = m.user_pending_yields.contains_key(user.id);
            let count = (if balance {
                1nat
            } else {
                0nat
            }) + (if checkpoint {
                1nat
            } else {
                0nat
            }) + (if stored {
                1nat
            } else {
                0nat
            });
            &&& keys.len() == count
            &&& bump_count(m, Some(user)) == 1 + count
            &&& bump_count(m, None) == 1
            &&& balance ==> keys[0] == DataKey::Balance(user)
            &&& checkpoint ==> keys.contains(DataKey::UserCheckpoint(user))
            &&& stored ==> keys.last() == DataKey::UserPendingYield(user)
            &&& keys.contains(key) ==> key == DataKey::Balance(user) && balance || key
                == DataKey::UserCheckpoint(user) && checkpoint || key == DataKey::UserPendingYield(
                user,
            ) && stored
        }),
{
    let keys = user_keys(m, user);
    if m.user_checkpoints.contains_key(user.id) {
        let i: int = if m.balances.contains_key(user.id) {
            1
        } else {
            0
        };
        assert(keys[i] == DataKey::UserCheckpoint(user));
    }
}

/// What an initialisation sets, and that it leaves everything else alone. It is
/// refused exactly if there is an admin.
pub proof fn law_initialization_sets_the_vault_up(
    m: Model,
    admin: Address,
    token: Address,
    signers: Seq<Address>,
    decimals: u32,
    price_precision: u32,
    name: Seq<char>,
    symbol: Seq<char>,
)
    ensures
        m.admin is None ==> initialize_error(m) is None,
        m.admin is Some ==> initialize_error(m) == Some(VaultError::AlreadyInitialized),
        ({
            let after = initialized(
                m,
                admin,
                token,
                signers,
                decimals,
                price_precision,
                name,
                symbol,
            );
            &&& after.admin == Some(admin)
            &&& after.token == Some(token)
            &&& after.governance_signers == signers
            &&& after.multisig_signers == signers
            &&& after.vault_name == Some(name)
            &&& after.vault_symbol == Some(symbol)
            &&& decimals != 0 ==> after.decimals == decimals
            &&& decimals == 0 ==> after.decimals == 7
            &&& price_precision != 0 ==> after.price_precision == price_precision
            &&& price_precision == 0 ==> after.price_precision == 10_000_000
            &&& after.checkpoint(admin) == 0
            &&& after.stored_yield(admin) == 0
            &&& after.user_checkpoints.remove(admin.id) == m.user_checkpoints.remove(admin.id)
            &&& after.user_pending_yields.remove(admin.id) == m.user_pending_yields.remove(
                admin.id,
            )
            &&& after == (Model {
                admin: after.admin,
                token: after.token,
                total_shares: 0,
                total_deposited: 0,
                cumulative_yps: 0,
                distribution_epoch: 0,
                user_checkpoints: after.user_checkpoints,
                user_pending_yields: after.user_pending_yields,
                version: 1,
                layout_version: 1,
                vault_name: after.vault_name,
                vault_symbol: after.vault_symbol,
                vault_version: 1,
                decimals: after.decimals,
                price_precision: after.price_precision,
                governance_signers: signers,
                multisig_signers: signers,
                ..m
            })
        }),
{
    let after = initialized(m, admin, token, signers, decimals, price_precision, name, symbol);
    assert(after.user_checkpoints.remove(admin.id) =~= m.user_checkpoints.remove(admin.id));
    assert(after.user_pending_yields.remove(admin.id) =~= m.user_pending_yields.remove(admin.id));
}

/// A fresh vault holds nothing and nobody may do anything in it. Its fee is a
/// tenth, nothing else is set, and the first queue entry will be number one.
pub proof fn law_fresh_vault_is_empty(timestamp: u64, addr: Address)
    ensures
        ({
            let m = Model::fresh(timestamp);
            &&& m.timestamp == timestamp
            &&& m.total_shares == 0 && m.total_deposited == 0 && m.total_fee_collected == 0
            &&& m.balance(addr) == 0 && m.checkpoint(addr) == 0 && m.stored_yield(addr) == 0
            &&& m.admin is None && m.token is None && m.treasury is None && m.oracle_address
                is None
            &&& !m.has_auth(addr) && !m.locked && !m.paused && !m.whitelist_enabled
            &&& !m.whitelisted(addr) && !m.accepts_yield_token(addr)
            &&& m.perf_fee_bps == 1_000 && m.mgmt_fee_bps == 0 && m.withdrawal_fee_bps == 0
            &&& m.tvl_cap == 0 && m.min_deposit == 0 && m.withdrawal_queue_threshold == 0
            &&& m.harvest_cooldown_secs == 0 && m.last_harvest_time == 0
                && m.price_movement_limit == 0
            &&& m.withdrawal_unbonding_secs == 0 && m.withdrawal_next_id == 1
            &&& m.cumulative_yps == 0 && m.distribution_epoch == 0
            &&& m.decimals == 7 && m.price_precision == 10_000_000 && m.oracle_max_age == 3_600
            &&& m.version == 0 && m.layout_version == 0 && m.vault_version == 1
            &&& m.vault_name is None && m.vault_symbol is None && m.last_mgmt_fee_time == 0
            &&& m.multisig_threshold == 2 && m.multisig_op_count == 0 && m.proposal_count == 0
            &&& m.events.len() == 0 && m.multisig_signers.len() == 0
                && m.governance_signers.len() == 0
            &&& m.multisig_votes.len() == 0 && m.proposal_votes.len() == 0
            &&& m.authorized.len() == 0
            &&& m.balances == Map::<u64, i128>::empty()
            &&& m.user_checkpoints == Map::<u64, i128>::empty()
            &&& m.user_pending_yields == Map::<u64, i128>::empty()
            &&& m.yield_tokens == Map::<u64, bool>::empty()
            &&& m.whitelist == Map::<u64, bool>::empty()
            &&& m.withdrawal_entries == Map::<u64, crate::storage::WithdrawalEntry>::empty()
            &&& m.price_snapshots == Map::<u64, i128>::empty()
            &&& m.multisig_ops == Map::<u64, crate::multisig::Operation>::empty()
            &&& m.proposals == Map::<u64, crate::governance::ProposalModel>::empty()
        }),
{
}

/// A pause and an unpause each set the flag and tell of it. Nothing else
/// changes, and a vault that was not paused is after both as it was, but for
/// what was told.
pub proof fn law_pauses_set_the_flag_and_nothing_else(m: Model)
    ensures
        after_pause(m) == (Model { paused: true, events: m.events.push(Event::Paused), ..m }),
        after_unpause(m) == (Model { paused: false, events: m.events.push(Event::Unpaused), ..m }),
        !m.paused ==> after_unpause(after_pause(m)) == (Model {
            events: m.events.push(Event::Paused).push(Event::Unpaused),
            ..m
        }),
{
}

} // verus!
