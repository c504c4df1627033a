use crate::address::Address;
use crate::env::{text_of, Env, Model};
use crate::errors::VaultError;
use crate::events::Event;
use crate::guard::ends_with;
use crate::math::{mul_div, mul_div_of};
use crate::oracle::{oracle_price_error, validate_oracle_price};
use crate::storage;
use crate::storage::{
    get_admin, get_balance, get_decimals, get_min_deposit, get_perf_fee_bps, get_total_deposited,
    get_total_fee_collected, get_total_shares, get_vault_name, get_vault_symbol,
    get_vault_version, get_version, DataKey,
};
use crate::vault::AuraVault;
use vstd::prelude::*;

verus! {

/// Scale of oracle prices: micro-USD.
pub const USD_PRECISION: i128 = 1_000_000;

/// A summary of the vault's state.
#[derive(Clone, Copy, Debug, PartialEq, Eq, Structural)]
pub struct VaultSnapshot {
    pub total_assets: i128,
    pub total_shares: i128,
    pub is_paused: bool,
    pub price_precision: u32,
    pub fee_bps: u32,
    pub version: u32,
    pub tvl_cap: i128,
}

/// The vault's assets per share, scaled by the price precision and rounded
/// down; nothing where no share is outstanding or the arithmetic overflows.
pub open spec fn share_price_of(m: Model) -> i128 {
    match mul_div_of(m.total_deposited as int, m.price_precision as int, m.total_shares as int) {
        Some(price) => price,
        None => 0,
    }
}

/// The value of the vault's assets in micro-USD, given the oracle's price and
/// its time: nothing without an oracle, without a reply, with a price that is
/// refused, or where the arithmetic overflows.
pub open spec fn usd_value(m: Model, quote: Option<(i128, u64)>) -> i128 {
    if m.oracle_address is None || quote is None {
        0
    } else {
        let (price, updated_at) = quote->0;
        if oracle_price_error(m.timestamp, price, updated_at, m.oracle_max_age) is Some {
            0
        } else {
            match mul_div_of(m.total_deposited as int, price as int, USD_PRECISION as int) {
                Some(value) => value,
                None => 0,
            }
        }
    }
}

/// The recorded share prices at those of `timestamps` that lie between `from`
/// and `to` and have one, in the order of `timestamps`.
pub open spec fn snapshots_between(m: Model, timestamps: Seq<u64>, from: u64, to: u64) -> Seq<
    (u64, i128),
>
    decreases timestamps.len(),
{
    if timestamps.len() == 0 {
        Seq::empty()
    } else {
        let earlier = snapshots_between(m, timestamps.drop_last(), from, to);
        let ts = timestamps.last();
        if from <= ts <= to && m.price_snapshots.contains_key(ts) {
            earlier.push((ts, m.price_snapshots[ts]))
        } else {
            earlier
        }
    }
}

/// The entries that are stored for `user`.
pub open spec fn user_keys(m: Model, user: Address) -> Seq<DataKey> {
    let balance = if m.balances.contains_key(user.id) {
        seq![DataKey::Balance(user)]
    } else {
        Seq::empty()
    };
    let checkpoint = if m.user_checkpoints.contains_key(user.id) {
        seq![DataKey::UserCheckpoint(user)]
    } else {
        Seq::empty()
    };
    let stored_yield = if m.user_pending_yields.contains_key(user.id) {
        seq![DataKey::UserPendingYield(user)]
    } else {
        Seq::empty()
    };
    balance + checkpoint + stored_yield
}

/// How many entries a call of [`AuraVault::bump_storage`] refreshes: the
/// contract instance and what is stored for the user.
pub open spec fn bump_count(m: Model, user: Option<Address>) -> nat {
    match user {
        Some(user) => 1 + user_keys(m, user).len(),
        None => 1,
    }
}

impl AuraVault {
    /// Whether the vault is paused.
    pub fn is_paused(env: &Env) -> (r: bool)
        ensures
            r == env@.paused,
    {
        storage::is_paused(env)
    }

    /// Fees collected and not yet withdrawn, in underlying tokens.
    pub fn total_fees_collected(env: &Env) -> (r: i128)
        ensures
            r == env@.total_fee_collected,
    {
        get_total_fee_collected(env)
    }

    /// The cap on total assets (0 = unlimited).
    pub fn get_tvl_cap(env: &Env) -> (r: i128)
        ensures
            r == env@.tvl_cap,
    {
        storage::get_tvl_cap(env)
    }

    /// The underlying tokens that the vault tracks.
    pub fn total_assets(env: &Env) -> (r: i128)
        ensures
            r == env@.total_deposited,
    {
        get_total_deposited(env)
    }

    /// The shares outstanding.
    pub fn total_shares(env: &Env) -> (r: i128)
        ensures
            r == env@.total_shares,
    {
        get_total_shares(env)
    }

    /// The shares outstanding, under the name that tokens use.
    pub fn total_supply(env: &Env) -> (r: i128)
        ensures
            r == env@.total_shares,
    {
        get_total_shares(env)
    }

    /// The shares that `address` holds; 0 for an address that never deposited.
    pub fn balance_of(env: &Env, address: Address) -> (r: i128)
        ensures
            r == env@.balance(address),
    {
        get_balance(env, address)
    }

    /// Whether `addr` is on the whitelist.
    pub fn is_whitelisted(env: &Env, addr: Address) -> (r: bool)
        ensures
            r == env@.whitelisted(addr),
    {
        storage::is_whitelisted(env, addr)
    }

    /// The minimum deposit.
    pub fn min_deposit(env: &Env) -> (r: i128)
        ensures
            r == env@.min_deposit,
    {
        get_min_deposit(env)
    }

    /// The vault name, once it is set.
    pub fn name(env: &Env) -> (r: Option<String>)
        ensures
            text_of(r) == env@.vault_name,
    {
        get_vault_name(env)
    }

    /// The vault share symbol, once it is set.
    pub fn symbol(env: &Env) -> (r: Option<String>)
        ensures
            text_of(r) == env@.vault_symbol,
    {
        get_vault_symbol(env)
    }

    /// The contract version integer.
    pub fn version(env: &Env) -> (r: u32)
        ensures
            r == env@.vault_version,
    {
        get_vault_version(env)
    }

    /// The decimal places of vault shares.
    pub fn decimals(env: &Env) -> (r: u32)
        ensures
            r == env@.decimals,
    {
        get_decimals(env)
    }

    /// The scale of [`AuraVault::share_price`].
    pub fn get_price_precision(env: &Env) -> (r: u32)
        ensures
            r == env@.price_precision,
    {
        env.price_precision
    }

    /// The price oracle, once it is set.
    pub fn get_oracle_address(env: &Env) -> (r: Option<Address>)
        ensures
            r == env@.oracle_address,
    {
        env.oracle_address
    }

    /// The vault's assets per share, scaled by the price precision.
    pub fn share_price(env: &Env) -> (r: i128)
        ensures
            r == share_price_of(env@),
    {
        match mul_div(
            get_total_deposited(env),
            env.price_precision as i128,
            get_total_shares(env),
        ) {
            Ok(price) => price,
            Err(_) => 0,
        }
    }

    /// The value of the vault's assets in micro-USD.
    ///
    /// `quote` is what the oracle replied: the price of the underlying token
    /// in micro-USD and the time of that price.
    pub fn total_assets_usd(env: &Env, quote: Option<(i128, u64)>) -> (r: i128)
        ensures
            r == usd_value(env@, quote),
    {
        if env.oracle_address.is_none() {
            return 0;
        }
        match quote {
            None => 0,
            Some((price, updated_at)) => {
                match validate_oracle_price(env.timestamp, price, updated_at, env.oracle_max_age) {
                    Err(_) => 0,
                    Ok(_) => match mul_div(get_total_deposited(env), price, USD_PRECISION) {
                        Ok(value) => value,
                        Err(_) => 0,
                    },
                }
            },
        }
    }

    /// The share price that the harvest at `timestamp` recorded.
    pub fn get_price_snapshot(env: &Env, timestamp: u64) -> (r: Option<i128>)
        ensures
            r == (if env@.price_snapshots.contains_key(timestamp) {
                Some(env@.price_snapshots[timestamp])
            } else {
                None
            }),
    {
        env.price_snapshots.get(timestamp)
    }

    /// The recorded share prices at those of `timestamps` that lie between
    /// `from` and `to`.
    pub fn list_price_snapshots(env: &Env, timestamps: &Vec<u64>, from: u64, to: u64) -> (r: Vec<
        (u64, i128),
    >)
        ensures
            r@ == snapshots_between(env@, timestamps@, from, to),
    {
        let mut found: Vec<(u64, i128)> = Vec::new();
        let mut i: usize = 0;
        while i < timestamps.len()
            invariant
                i <= timestamps.len(),
                found@ == snapshots_between(env@, timestamps@.take(i as int), from, to),
            decreases timestamps.len() - i,
        {
            let ts: u64 = timestamps[i];
            assert(timestamps@.take(i + 1).drop_last() =~= timestamps@.take(i as int));
            if from <= ts && ts <= to {
                match env.price_snapshots.get(ts) {
                    Some(price) => found.push((ts, price)),
                    None => {},
                }
            }
            i = i + 1;
        }
        assert(timestamps@.take(i as int) =~= timestamps@);
        found
    }

    /// A summary of the vault's state.
    pub fn export_state(env: &Env) -> (r: Result<VaultSnapshot, VaultError>)
        ensures
            ends_with(
                r,
                if env@.admin is None {
                    Some(VaultError::NotInitialized)
                } else {
                    None
                },
            ),
            r is Ok ==> r->Ok_0 == (VaultSnapshot {
                total_assets: env@.total_deposited,
                total_shares: env@.total_shares,
                is_paused: env@.paused,
                price_precision: env@.price_precision,
                fee_bps: env@.perf_fee_bps,
                version: env@.version,
                tvl_cap: env@.tvl_cap,
            }),
    {
        if get_admin(env).is_none() {
            return Err(VaultError::NotInitialized);
        }
        Ok(
            VaultSnapshot {
                total_assets: get_total_deposited(env),
                total_shares: get_total_shares(env),
                is_paused: storage::is_paused(env),
                price_precision: env.price_precision,
                fee_bps: get_perf_fee_bps(env),
                version: get_version(env),
                tvl_cap: storage::get_tvl_cap(env),
            },
        )
    }

    /// The entries that are stored for `user`.
    pub fn stored_user_keys(env: &Env, user: Address) -> (r: Vec<DataKey>)
        ensures
            r@ == user_keys(env@, user),
            r@.len() <= 3,
    {
        let mut keys: Vec<DataKey> = Vec::new();
        if env.balances.has(user.id) {
            keys.push(DataKey::Balance(user));
        }
        if env.user_checkpoints.has(user.id) {
            keys.push(DataKey::UserCheckpoint(user));
        }
        if env.user_pending_yields.has(user.id) {
            keys.push(DataKey::UserPendingYield(user));
        }
        assert(keys@ =~= user_keys(env@, user));
        keys
    }

    /// Refreshes the lifetime of the contract instance and of what is stored
    /// for `user`, and returns the number of refreshed entries. Anybody may
    /// call it.
    pub fn bump_storage(env: &mut Env, user: Option<Address>) -> (r: Result<u32, VaultError>)
        ensures
            ends_with(
                r,
                if old(env)@.admin is None {
                    Some(VaultError::NotInitialized)
                } else {
                    None
                },
            ),
            match r {
                Ok(count) => {
                    &&& count == bump_count(old(env)@, user)
                    &&& final(env)@ == old(env)@.publish(Event::StorageBumped { count })
                },
                Err(_) => final(env)@ == old(env)@,
            },
    {
        if get_admin(env).is_none() {
            return Err(VaultError::NotInitialized);
        }
        let count: u32 = match user {
            Some(user) => 1 + Self::stored_user_keys(env, user).len() as u32,
            None => 1,
        };
        env.publish(Event::StorageBumped { count });
        Ok(count)
    }

    /// The English sentence for a documented error code; none for any other
    /// number.
    pub fn get_vault_error_message(code: u32) -> (r: Option<&'static str>)
        ensures
            match r {
                Some(text) => {
                    &&& VaultError::with_code(code) is Some
                    &&& text@ == VaultError::with_code(code)->0.spec_message()
                },
                None => VaultError::with_code(code) is None,
            },
    {
        match VaultError::from_code(code) {
            Some(e) => Some(e.message()),
            None => None,
        }
    }
}

} // verus!
