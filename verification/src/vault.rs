use crate::address::Address;
use crate::env::{Env, Model};
use crate::errors::VaultError;
use crate::governance::initialize_governance;
use crate::guard::ends_with;
use crate::storage::{
    get_admin, set_admin, set_cumulative_yps, set_decimals, set_distribution_epoch,
    set_layout_version, set_multisig_signers, set_token, set_total_deposited, set_total_shares,
    set_user_checkpoint, set_user_pending_yield, set_vault_name, set_vault_symbol,
    set_vault_version, set_version, CURRENT_LAYOUT_VERSION, DEFAULT_DECIMALS,
    DEFAULT_PRICE_PRECISION,
};
use vstd::prelude::*;

verus! {

/// The vault contract. Its methods work on the [`Env`](crate::Env) of a call.
///
/// Methods that move tokens come in pairs. The first checks the call and
/// either refuses it or answers with a pending operation, which names the
/// transfer that is to be made; from then on the reentrancy lock is held. The
/// second takes the pending operation and the token balances around the
/// transfer, and completes the call or undoes it.
pub struct AuraVault;

/// `value`, or `default` where none was given.
pub open spec fn or_default(value: u32, default: u32) -> u32 {
    if value == 0 {
        default
    } else {
        value
    }
}

/// The vault after its initialisation.
pub open spec fn initialized(
    m: Model,
    admin: Address,
    underlying_token: Address,
    signers: Seq<Address>,
    decimals: u32,
    price_precision: u32,
    name: Seq<char>,
    symbol: Seq<char>,
) -> Model {
    Model {
        admin: Some(admin),
        token: Some(underlying_token),
        total_shares: 0,
        total_deposited: 0,
        cumulative_yps: 0,
        distribution_epoch: 0,
        user_checkpoints: m.user_checkpoints.insert(admin.id, 0),
        user_pending_yields: m.user_pending_yields.insert(admin.id, 0),
        version: 1,
        layout_version: CURRENT_LAYOUT_VERSION,
        vault_name: Some(name),
        vault_symbol: Some(symbol),
        vault_version: 1,
        decimals: or_default(decimals, DEFAULT_DECIMALS),
        price_precision: or_default(price_precision, DEFAULT_PRICE_PRECISION),
        governance_signers: signers,
        multisig_signers: signers,
        ..m
    }
}

/// Why an initialisation is refused.
pub open spec fn initialize_error(m: Model) -> Option<VaultError> {
    if m.admin is Some {
        Some(VaultError::AlreadyInitialized)
    } else {
        None
    }
}

/// A copy of a list of addresses.
fn copy_addresses(list: &Vec<Address>) -> (copy: Vec<Address>)
    ensures
        copy@ == list@,
{
    let mut copy: Vec<Address> = Vec::new();
    let mut i: usize = 0;
    while i < list.len()
        invariant
            i <= list.len(),
            copy@ == list@.take(i as int),
        decreases list.len() - i,
    {
        copy.push(list[i]);
        i = i + 1;
        assert(list@.take(i as int) =~= list@.take(i - 1).push(list@[i - 1]));
    }
    assert(list@.take(i as int) =~= list@);
    copy
}

impl AuraVault {
    /// Sets the vault up: its admin, its underlying token, its signers, and
    /// the decimal places of its shares (0 for the usual 7). It succeeds once.
    pub fn initialize(
        env: &mut Env,
        admin: Address,
        underlying_token: Address,
        signers: Vec<Address>,
        decimals: u32,
    ) -> (r: Result<(), VaultError>)
        ensures
            ends_with(r, initialize_error(old(env)@)),
            final(env)@ == (if r is Ok {
                initialized(
                    old(env)@,
                    admin,
                    underlying_token,
                    signers@,
                    decimals,
                    0,
                    "Aura Vault Share"@,
                    "AVS"@,
                )
            } else {
                old(env)@
            }),
    {
        Self::initialize_with(
            env,
            admin,
            underlying_token,
            signers,
            decimals,
            0,
            "Aura Vault Share".to_string(),
            "AVS".to_string(),
        )
    }

    /// Sets the vault up as [`AuraVault::initialize`] does, with a share-price
    /// precision (0 for the usual 10_000_000), a name and a symbol of its own.
    pub fn initialize_with(
        env: &mut Env,
        admin: Address,
        underlying_token: Address,
        signers: Vec<Address>,
        decimals: u32,
        price_precision: u32,
        name: String,
        symbol: String,
    ) -> (r: Result<(), VaultError>)
        ensures
            ends_with(r, initialize_error(old(env)@)),
            final(env)@ == (if r is Ok {
                initialized(
                    old(env)@,
                    admin,
                    underlying_token,
                    signers@,
                    decimals,
                    price_precision,
                    name@,
                    symbol@,
                )
            } else {
                old(env)@
            }),
    {
        if get_admin(env).is_some() {
            return Err(VaultError::AlreadyInitialized);
        }
        set_admin(env, admin);
        set_token(env, underlying_token);
        set_total_shares(env, 0);
        set_total_deposited(env, 0);
        set_cumulative_yps(env, 0);
        set_distribution_epoch(env, 0);
        set_user_checkpoint(env, admin, 0);
        set_user_pending_yield(env, admin, 0);
        set_version(env, 1);
        set_layout_version(env, CURRENT_LAYOUT_VERSION);
        set_vault_name(env, name);
        set_vault_symbol(env, symbol);
        set_vault_version(env, 1);
        set_decimals(
            env,
            if decimals == 0 {
                DEFAULT_DECIMALS
            } else {
                decimals
            },
        );
        env.price_precision = if price_precision == 0 {
            DEFAULT_PRICE_PRECISION
        } else {
            price_precision
        };
        set_multisig_signers(env, copy_addresses(&signers));
        initialize_governance(env, signers);
        Ok(())
    }
}

} // verus!
