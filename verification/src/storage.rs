use crate::address::Address;
use crate::env::{contains_vote, Env, Model, Vote};
use crate::errors::VaultError;
use vstd::prelude::*;

verus! {

/// The entries of the contract's storage.
#[derive(Clone, Copy, Debug, PartialEq, Eq, Structural)]
pub enum DataKey {
    Admin,
    UnderlyingToken,
    TotalShares,
    TotalDeposited,
    Balance(Address),
    Version,
    LayoutVersion,
    /// Emergency pause flag: when set, deposit, withdraw and harvest are blocked.
    Paused,
    Treasury,
    PerfFeeBps,
    MgmtFeeBps,
    TotalFeeCollected,
    LastMgmtFeeTime,
    /// Whether an alternative yield token is accepted.
    YieldToken(Address),
    /// Maximum total assets allowed (0 = unlimited).
    TvlCap,
    /// Timestamp of the last successful harvest.
    LastHarvestTime,
    /// Minimum seconds between harvests (0 = no cooldown).
    HarvestCooldownSecs,
    /// Global cumulative yield per share, scaled by `YIELD_PRECISION`.
    CumulativeYps,
    /// The cumulative yield per share at the user's last settlement.
    UserCheckpoint(Address),
    /// Unsettled pending yield of a user, in underlying units.
    UserPendingYield(Address),
    /// Counter of distributions.
    DistributionEpoch,
    /// Minimum redemption that is queued instead of paid at once.
    WithdrawalQueueThreshold,
    /// Minimum seconds a queued withdrawal waits before it can be claimed.
    WithdrawalUnbondingSecs,
    /// Withdrawal fee in basis points (0 = no fee, at most 500).
    WithdrawalFeeBps,
    /// Next withdrawal queue ID.
    WithdrawalNextId,
    /// A withdrawal queue entry by queue ID.
    WithdrawalEntry(u64),
    /// Maximum share-price movement per harvest, in basis points.
    PriceMovementLimit,
    /// Whether whitelist-only mode is enabled for deposits.
    WhitelistEnabled,
    /// Per-address whitelist status.
    Whitelist(Address),
    /// Minimum deposit amount in underlying token units.
    MinDeposit,
    VaultName,
    VaultSymbol,
    VaultVersion,
    /// Vault share decimals, set at initialization.
    Decimals,
    /// Reentrancy guard lock flag.
    ReentrancyGuard,
    /// Current multi-sig signers, in order.
    MultiSigSigners,
    /// Number of signatures required to execute an operation.
    MultiSigThreshold,
    /// Counter of operations.
    MultiSigOpCount,
    /// Signature record of an operation and a signer.
    MultiSigVote(u64, Address),
    /// Scale of the reported share price, set at initialization.
    PricePrecision,
    /// Contract that quotes the underlying token in micro-USD.
    OracleAddress,
    /// Age in seconds at which an oracle price is stale.
    OracleMaxAge,
    /// Share price after the harvest at a ledger timestamp.
    PriceSnapshot(u64),
    /// A multi-sig operation by ID.
    MultiSigOp(u64),
    /// Current governance signers, in order.
    GovernanceSigners,
    /// Counter of governance proposals.
    ProposalCount,
    /// A governance proposal by ID.
    Proposal(u64),
    /// Vote record of a proposal and a signer.
    ProposalVote(u64, Address),
}

pub const ADMIN_ROLE: u32 = 1 << 0;

pub const KEEPER_ROLE: u32 = 1 << 1;

pub const GUARDIAN_ROLE: u32 = 1 << 2;

pub const DAY_IN_LEDGERS: u32 = 17_280;

pub const INSTANCE_LIFETIME_THRESHOLD: u32 = DAY_IN_LEDGERS * 7;

pub const INSTANCE_BUMP_AMOUNT: u32 = DAY_IN_LEDGERS * 30;

pub const PERSISTENT_LIFETIME_THRESHOLD: u32 = DAY_IN_LEDGERS * 7;

pub const PERSISTENT_BUMP_AMOUNT: u32 = DAY_IN_LEDGERS * 30;

/// The storage layout that this code reads and writes. It changes whenever an
/// existing key changes its meaning.
pub const CURRENT_LAYOUT_VERSION: u32 = 1;

/// Signatures that an operation needs until the admin sets another threshold.
pub const DEFAULT_THRESHOLD: u32 = 2;

/// Operations expire 72 hours after they were proposed.
pub const MULTISIG_EXPIRY_SECS: u64 = 72 * 60 * 60;

/// Performance fee of a vault whose admin has set none: 10%.
pub const DEFAULT_PERF_FEE_BPS: u32 = 1_000;

/// Share decimals of a vault that is initialised without any.
pub const DEFAULT_DECIMALS: u32 = 7;

/// Share-price scale of a vault that is initialised without one.
pub const DEFAULT_PRICE_PRECISION: u32 = 10_000_000;

/// A single entry in the withdrawal queue.
#[derive(Clone, Copy, Debug, PartialEq, Eq, Structural)]
pub struct WithdrawalEntry {
    /// Address that queued the withdrawal.
    pub owner: Address,
    /// Number of vault shares burned when this entry was created.
    pub shares: i128,
    /// Underlying token amount to be redeemed (computed at queue time).
    pub redeem_amount: i128,
    /// Ledger timestamp from which the entry may be claimed.
    pub claimable_after: u64,
    /// Whether this entry has already been claimed.
    pub claimed: bool,
}

/// Whether the vault has an underlying token.
pub fn is_initialized(env: &Env) -> (r: bool)
    ensures
        r == (env@.token is Some),
{
    env.token.is_some()
}

/// The admin.
pub fn get_admin(env: &Env) -> (r: Option<Address>)
    ensures
        r == env@.admin,
{
    env.admin
}

/// Sets the admin.
pub fn set_admin(env: &mut Env, value: Address)
    ensures
        final(env)@ == (Model { admin: Some(value), ..old(env)@ }),
{
    env.admin = Some(value);
}

/// The underlying token.
pub fn get_token(env: &Env) -> (r: Option<Address>)
    ensures
        r == env@.token,
{
    env.token
}

/// Sets the underlying token.
pub fn set_token(env: &mut Env, value: Address)
    ensures
        final(env)@ == (Model { token: Some(value), ..old(env)@ }),
{
    env.token = Some(value);
}

/// The shares outstanding.
pub fn get_total_shares(env: &Env) -> (r: i128)
    ensures
        r == env@.total_shares,
{
    env.total_shares
}

/// Sets the shares outstanding.
pub fn set_total_shares(env: &mut Env, value: i128)
    ensures
        final(env)@ == (Model { total_shares: value, ..old(env)@ }),
{
    env.total_shares = value;
}

/// The underlying tokens that the vault tracks.
pub fn get_total_deposited(env: &Env) -> (r: i128)
    ensures
        r == env@.total_deposited,
{
    env.total_deposited
}

/// Sets the underlying tokens that the vault tracks.
pub fn set_total_deposited(env: &mut Env, value: i128)
    ensures
        final(env)@ == (Model { total_deposited: value, ..old(env)@ }),
{
    env.total_deposited = value;
}

/// Where fees are paid.
pub fn get_treasury(env: &Env) -> (r: Option<Address>)
    ensures
        r == env@.treasury,
{
    env.treasury
}

/// Sets where fees are paid.
pub fn set_treasury(env: &mut Env, value: Address)
    ensures
        final(env)@ == (Model { treasury: Some(value), ..old(env)@ }),
{
    env.treasury = Some(value);
}

/// The performance fee in basis points.
pub fn get_perf_fee_bps(env: &Env) -> (r: u32)
    ensures
        r == env@.perf_fee_bps,
{
    env.perf_fee_bps
}

/// Sets the performance fee in basis points.
pub fn set_perf_fee_bps(env: &mut Env, value: u32)
    ensures
        final(env)@ == (Model { perf_fee_bps: value, ..old(env)@ }),
{
    env.perf_fee_bps = value;
}

/// The management fee in basis points.
pub fn get_mgmt_fee_bps(env: &Env) -> (r: u32)
    ensures
        r == env@.mgmt_fee_bps,
{
    env.mgmt_fee_bps
}

/// Sets the management fee in basis points.
pub fn set_mgmt_fee_bps(env: &mut Env, value: u32)
    ensures
        final(env)@ == (Model { mgmt_fee_bps: value, ..old(env)@ }),
{
    env.mgmt_fee_bps = value;
}

/// The fees collected and not yet withdrawn.
pub fn get_total_fee_collected(env: &Env) -> (r: i128)
    ensures
        r == env@.total_fee_collected,
{
    env.total_fee_collected
}

/// Sets the fees collected and not yet withdrawn.
pub fn set_total_fee_collected(env: &mut Env, value: i128)
    ensures
        final(env)@ == (Model { total_fee_collected: value, ..old(env)@ }),
{
    env.total_fee_collected = value;
}

/// When the management fee was last charged.
pub fn get_last_mgmt_fee_time(env: &Env) -> (r: u64)
    ensures
        r == env@.last_mgmt_fee_time,
{
    env.last_mgmt_fee_time
}

/// Sets when the management fee was last charged.
pub fn set_last_mgmt_fee_time(env: &mut Env, value: u64)
    ensures
        final(env)@ == (Model { last_mgmt_fee_time: value, ..old(env)@ }),
{
    env.last_mgmt_fee_time = value;
}

/// The contract version counter.
pub fn get_version(env: &Env) -> (r: u32)
    ensures
        r == env@.version,
{
    env.version
}

/// Sets the contract version counter.
pub fn set_version(env: &mut Env, value: u32)
    ensures
        final(env)@ == (Model { version: value, ..old(env)@ }),
{
    env.version = value;
}

/// The layout version of the stored entries.
pub fn get_layout_version(env: &Env) -> (r: u32)
    ensures
        r == env@.layout_version,
{
    env.layout_version
}

/// Sets the layout version of the stored entries.
pub fn set_layout_version(env: &mut Env, value: u32)
    ensures
        final(env)@ == (Model { layout_version: value, ..old(env)@ }),
{
    env.layout_version = value;
}

/// The cap on total assets (0 = unlimited).
pub fn get_tvl_cap(env: &Env) -> (r: i128)
    ensures
        r == env@.tvl_cap,
{
    env.tvl_cap
}

/// Sets the cap on total assets (0 = unlimited).
pub fn set_tvl_cap(env: &mut Env, value: i128)
    ensures
        final(env)@ == (Model { tvl_cap: value, ..old(env)@ }),
{
    env.tvl_cap = value;
}

/// The time of the last harvest (0 = never).
pub fn get_last_harvest_time(env: &Env) -> (r: u64)
    ensures
        r == env@.last_harvest_time,
{
    env.last_harvest_time
}

/// Sets the time of the last harvest (0 = never).
pub fn set_last_harvest_time(env: &mut Env, value: u64)
    ensures
        final(env)@ == (Model { last_harvest_time: value, ..old(env)@ }),
{
    env.last_harvest_time = value;
}

/// The seconds between harvests (0 = no cooldown).
pub fn get_harvest_cooldown_secs(env: &Env) -> (r: u64)
    ensures
        r == env@.harvest_cooldown_secs,
{
    env.harvest_cooldown_secs
}

/// Sets the seconds between harvests (0 = no cooldown).
pub fn set_harvest_cooldown_secs(env: &mut Env, value: u64)
    ensures
        final(env)@ == (Model { harvest_cooldown_secs: value, ..old(env)@ }),
{
    env.harvest_cooldown_secs = value;
}

/// The cumulative yield per share, scaled by `YIELD_PRECISION`.
pub fn get_cumulative_yps(env: &Env) -> (r: i128)
    ensures
        r == env@.cumulative_yps,
{
    env.cumulative_yps
}

/// Sets the cumulative yield per share, scaled by `YIELD_PRECISION`.
pub fn set_cumulative_yps(env: &mut Env, value: i128)
    ensures
        final(env)@ == (Model { cumulative_yps: value, ..old(env)@ }),
{
    env.cumulative_yps = value;
}

/// The number of distributions so far.
pub fn get_distribution_epoch(env: &Env) -> (r: u64)
    ensures
        r == env@.distribution_epoch,
{
    env.distribution_epoch
}

/// Sets the number of distributions so far.
pub fn set_distribution_epoch(env: &mut Env, value: u64)
    ensures
        final(env)@ == (Model { distribution_epoch: value, ..old(env)@ }),
{
    env.distribution_epoch = value;
}

/// The redemption that is queued instead of paid at once (0 = no queue).
pub fn get_withdrawal_queue_threshold(env: &Env) -> (r: i128)
    ensures
        r == env@.withdrawal_queue_threshold,
{
    env.withdrawal_queue_threshold
}

/// Sets the redemption that is queued instead of paid at once (0 = no queue).
pub fn set_withdrawal_queue_threshold(env: &mut Env, value: i128)
    ensures
        final(env)@ == (Model { withdrawal_queue_threshold: value, ..old(env)@ }),
{
    env.withdrawal_queue_threshold = value;
}

/// The seconds a queued withdrawal waits.
pub fn get_withdrawal_unbonding_secs(env: &Env) -> (r: u64)
    ensures
        r == env@.withdrawal_unbonding_secs,
{
    env.withdrawal_unbonding_secs
}

/// Sets the seconds a queued withdrawal waits.
pub fn set_withdrawal_unbonding_secs(env: &mut Env, value: u64)
    ensures
        final(env)@ == (Model { withdrawal_unbonding_secs: value, ..old(env)@ }),
{
    env.withdrawal_unbonding_secs = value;
}

/// The withdrawal fee in basis points.
pub fn get_withdrawal_fee_bps(env: &Env) -> (r: u32)
    ensures
        r == env@.withdrawal_fee_bps,
{
    env.withdrawal_fee_bps
}

/// Sets the withdrawal fee in basis points.
pub fn set_withdrawal_fee_bps(env: &mut Env, value: u32)
    ensures
        final(env)@ == (Model { withdrawal_fee_bps: value, ..old(env)@ }),
{
    env.withdrawal_fee_bps = value;
}

/// The ID of the next queue entry.
pub fn get_withdrawal_next_id(env: &Env) -> (r: u64)
    ensures
        r == env@.withdrawal_next_id,
{
    env.withdrawal_next_id
}

/// Sets the ID of the next queue entry.
pub fn set_withdrawal_next_id(env: &mut Env, value: u64)
    ensures
        final(env)@ == (Model { withdrawal_next_id: value, ..old(env)@ }),
{
    env.withdrawal_next_id = value;
}

/// The share-price movement limit in basis points (0 = disabled).
pub fn get_price_movement_limit(env: &Env) -> (r: u32)
    ensures
        r == env@.price_movement_limit,
{
    env.price_movement_limit
}

/// Sets the share-price movement limit in basis points (0 = disabled).
pub fn set_price_movement_limit(env: &mut Env, value: u32)
    ensures
        final(env)@ == (Model { price_movement_limit: value, ..old(env)@ }),
{
    env.price_movement_limit = value;
}

/// Whether only whitelisted addresses may deposit.
pub fn get_whitelist_enabled(env: &Env) -> (r: bool)
    ensures
        r == env@.whitelist_enabled,
{
    env.whitelist_enabled
}

/// Sets whether only whitelisted addresses may deposit.
pub fn set_whitelist_enabled(env: &mut Env, value: bool)
    ensures
        final(env)@ == (Model { whitelist_enabled: value, ..old(env)@ }),
{
    env.whitelist_enabled = value;
}

/// The minimum deposit.
pub fn get_min_deposit(env: &Env) -> (r: i128)
    ensures
        r == env@.min_deposit,
{
    env.min_deposit
}

/// Sets the minimum deposit.
pub fn set_min_deposit(env: &mut Env, value: i128)
    ensures
        final(env)@ == (Model { min_deposit: value, ..old(env)@ }),
{
    env.min_deposit = value;
}

/// The contract version integer.
pub fn get_vault_version(env: &Env) -> (r: u32)
    ensures
        r == env@.vault_version,
{
    env.vault_version
}

/// Sets the contract version integer.
pub fn set_vault_version(env: &mut Env, value: u32)
    ensures
        final(env)@ == (Model { vault_version: value, ..old(env)@ }),
{
    env.vault_version = value;
}

/// The decimal places of vault shares.
pub fn get_decimals(env: &Env) -> (r: u32)
    ensures
        r == env@.decimals,
{
    env.decimals
}

/// Sets the decimal places of vault shares.
pub fn set_decimals(env: &mut Env, value: u32)
    ensures
        final(env)@ == (Model { decimals: value, ..old(env)@ }),
{
    env.decimals = value;
}

/// The signatures that an operation needs.
pub fn get_multisig_threshold(env: &Env) -> (r: u32)
    ensures
        r == env@.multisig_threshold,
{
    env.multisig_threshold
}

/// Sets the signatures that an operation needs.
pub fn set_multisig_threshold(env: &mut Env, value: u32)
    ensures
        final(env)@ == (Model { multisig_threshold: value, ..old(env)@ }),
{
    env.multisig_threshold = value;
}

/// The number of operations proposed so far.
pub fn get_multisig_op_count(env: &Env) -> (r: u64)
    ensures
        r == env@.multisig_op_count,
{
    env.multisig_op_count
}

/// Sets the number of operations proposed so far.
pub fn set_multisig_op_count(env: &mut Env, value: u64)
    ensures
        final(env)@ == (Model { multisig_op_count: value, ..old(env)@ }),
{
    env.multisig_op_count = value;
}

/// Whether the vault is paused.
pub fn is_paused(env: &Env) -> (r: bool)
    ensures
        r == env@.paused,
{
    env.paused
}

/// Sets whether the vault is paused.
pub fn set_paused(env: &mut Env, value: bool)
    ensures
        final(env)@ == (Model { paused: value, ..old(env)@ }),
{
    env.paused = value;
}

/// Whether a call into the vault is in progress.
pub fn is_reentrancy_locked(env: &Env) -> (r: bool)
    ensures
        r == env@.locked,
{
    env.locked
}

/// Sets whether a call into the vault is in progress.
pub fn set_reentrancy_lock(env: &mut Env, value: bool)
    ensures
        final(env)@ == (Model { locked: value, ..old(env)@ }),
{
    env.locked = value;
}

/// The shares that `addr` holds.
pub fn get_balance(env: &Env, addr: Address) -> (r: i128)
    ensures
        r == env@.balance(addr),
{
    env.balances.get(addr.id).unwrap_or(0)
}

/// Sets the shares that `addr` holds.
pub fn set_balance(env: &mut Env, addr: Address, value: i128)
    ensures
        final(env)@ == (Model {
            balances: old(env)@.balances.insert(addr.id, value),
            ..old(env)@
        }),
{
    env.balances.set(addr.id, value);
}

/// The yield per share up to which `addr` has been paid.
pub fn get_user_checkpoint(env: &Env, addr: Address) -> (r: i128)
    ensures
        r == env@.checkpoint(addr),
{
    env.user_checkpoints.get(addr.id).unwrap_or(0)
}

/// Sets the yield per share up to which `addr` has been paid.
pub fn set_user_checkpoint(env: &mut Env, addr: Address, value: i128)
    ensures
        final(env)@ == (Model {
            user_checkpoints: old(env)@.user_checkpoints.insert(addr.id, value),
            ..old(env)@
        }),
{
    env.user_checkpoints.set(addr.id, value);
}

/// The yield set aside for `addr`.
pub fn get_user_pending_yield(env: &Env, addr: Address) -> (r: i128)
    ensures
        r == env@.stored_yield(addr),
{
    env.user_pending_yields.get(addr.id).unwrap_or(0)
}

/// Sets the yield set aside for `addr`.
pub fn set_user_pending_yield(env: &mut Env, addr: Address, value: i128)
    ensures
        final(env)@ == (Model {
            user_pending_yields: old(env)@.user_pending_yields.insert(addr.id, value),
            ..old(env)@
        }),
{
    env.user_pending_yields.set(addr.id, value);
}

/// Whether yield may be paid in the token `addr`.
pub fn is_yield_token(env: &Env, addr: Address) -> (r: bool)
    ensures
        r == env@.accepts_yield_token(addr),
{
    env.yield_tokens.get(addr.id).unwrap_or(false)
}

/// Sets whether yield may be paid in the token `addr`.
pub fn set_yield_token(env: &mut Env, addr: Address, value: bool)
    ensures
        final(env)@ == (Model {
            yield_tokens: old(env)@.yield_tokens.insert(addr.id, value),
            ..old(env)@
        }),
{
    env.yield_tokens.set(addr.id, value);
}

/// Whether `addr` is on the whitelist.
pub fn is_whitelisted(env: &Env, addr: Address) -> (r: bool)
    ensures
        r == env@.whitelisted(addr),
{
    env.whitelist.get(addr.id).unwrap_or(false)
}

/// Sets whether `addr` is on the whitelist.
pub fn set_whitelisted(env: &mut Env, addr: Address, value: bool)
    ensures
        final(env)@ == (Model {
            whitelist: old(env)@.whitelist.insert(addr.id, value),
            ..old(env)@
        }),
{
    env.whitelist.set(addr.id, value);
}

/// The withdrawal queue entry with the given ID.
pub fn get_withdrawal_entry(env: &Env, id: u64) -> (r: Option<WithdrawalEntry>)
    ensures
        r == (if env@.withdrawal_entries.contains_key(id) {
            Some(env@.withdrawal_entries[id])
        } else {
            None
        }),
{
    env.withdrawal_entries.get(id)
}

/// Stores a withdrawal queue entry.
pub fn set_withdrawal_entry(env: &mut Env, id: u64, entry: WithdrawalEntry)
    ensures
        final(env)@ == (Model {
            withdrawal_entries: old(env)@.withdrawal_entries.insert(id, entry),
            ..old(env)@
        }),
{
    env.withdrawal_entries.set(id, entry);
}

/// Removes a withdrawal queue entry.
pub fn remove_withdrawal_entry(env: &mut Env, id: u64)
    ensures
        final(env)@ == (Model {
            withdrawal_entries: old(env)@.withdrawal_entries.remove(id),
            ..old(env)@
        }),
{
    env.withdrawal_entries.remove(id);
}

/// The vault name, once it is set.
pub fn get_vault_name(env: &Env) -> (r: Option<String>)
    ensures
        crate::env::text_of(r) == env@.vault_name,
{
    match &env.vault_name {
        Some(name) => Some(name.clone()),
        None => None,
    }
}

/// Sets the vault name.
pub fn set_vault_name(env: &mut Env, name: String)
    ensures
        final(env)@ == (Model { vault_name: Some(name@), ..old(env)@ }),
{
    env.vault_name = Some(name);
}

/// The vault share symbol, once it is set.
pub fn get_vault_symbol(env: &Env) -> (r: Option<String>)
    ensures
        crate::env::text_of(r) == env@.vault_symbol,
{
    match &env.vault_symbol {
        Some(symbol) => Some(symbol.clone()),
        None => None,
    }
}

/// Sets the vault share symbol.
pub fn set_vault_symbol(env: &mut Env, symbol: String)
    ensures
        final(env)@ == (Model { vault_symbol: Some(symbol@), ..old(env)@ }),
{
    env.vault_symbol = Some(symbol);
}

/// Takes the reentrancy lock, unless it is already taken.
pub fn enter_reentrancy_guard(env: &mut Env) -> (r: Result<(), VaultError>)
    ensures
        r == (if old(env)@.locked {
            Err::<(), VaultError>(VaultError::Reentrancy)
        } else {
            Ok(())
        }),
        final(env)@ == (Model { locked: true, ..old(env)@ }),
{
    if is_reentrancy_locked(env) {
        return Err(VaultError::Reentrancy);
    }
    set_reentrancy_lock(env, true);
    Ok(())
}

/// Releases the reentrancy lock.
pub fn exit_reentrancy_guard(env: &mut Env)
    ensures
        final(env)@ == (Model { locked: false, ..old(env)@ }),
{
    set_reentrancy_lock(env, false);
}

/// The multi-sig signers.
pub fn get_multisig_signers(env: &Env) -> (r: &Vec<Address>)
    ensures
        r@ == env@.multisig_signers,
{
    &env.multisig_signers
}

/// Replaces the multi-sig signers.
pub fn set_multisig_signers(env: &mut Env, signers: Vec<Address>)
    ensures
        final(env)@ == (Model { multisig_signers: signers@, ..old(env)@ }),
{
    env.multisig_signers = signers;
}

/// Whether `signer` has signed the operation `op_id`.
pub fn has_multisig_signed(env: &Env, op_id: u64, signer: Address) -> (r: bool)
    ensures
        r == env@.multisig_votes.contains(Vote { id: op_id, voter: signer }),
{
    contains_vote(&env.multisig_votes, op_id, signer)
}

/// Records that `signer` has signed the operation `op_id`.
pub fn record_multisig_vote(env: &mut Env, op_id: u64, signer: Address)
    ensures
        final(env)@ == (Model {
            multisig_votes: old(env)@.multisig_votes.push(Vote { id: op_id, voter: signer }),
            ..old(env)@
        }),
{
    env.multisig_votes.push(Vote { id: op_id, voter: signer });
}

} // verus!
