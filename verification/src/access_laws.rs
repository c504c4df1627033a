use crate::address::Address;
use crate::admin::{
    after_pause, after_unpause, fees_withdrawn, upgrade_error, upgraded, withdraw_fees_error,
    PendingFees,
};
use crate::deposit::{deposit_error, deposited, PendingDeposit};
use crate::distribution::{
    collect_error, collected, distribute_yield_error, distribute_yield_token_error, distributed,
    PendingCollection, PendingDistribution,
};
use crate::env::Model;
use crate::errors::VaultError;
use crate::events::Event;
use crate::governance::{execute_error, propose_error, vote_error};
use crate::guard::{admin_error, refused};
use crate::harvest::{
    harvest_error, harvest_token_error, harvested, harvested_token, register_error,
    PendingHarvest, PendingHarvestToken,
};
use crate::multisig::{
    execute_operation_error, remove_signer_error, sign_error, signer_error, threshold_error,
};
use crate::queue::{claim_error, claimed, withdrawal_fee_error, PendingClaim};
use crate::vault::{initialize_error, initialized};
use crate::withdraw::{
    emergency_withdraw_error, emergency_withdrawn, withdraw_error, withdrawn, PendingWithdraw,
};
use vstd::prelude::*;

verus! {

/// While a call is in progress, every other call that could change the vault
/// is refused as reentrant.
pub proof fn law_reentrant_calls_are_refused(
    m: Model,
    caller: Address,
    token: Address,
    amount: i128,
    value: i128,
    balance: i128,
    id: u64,
    bps: u32,
)
    requires
        m.locked,
    ensures
        deposit_error(m, caller, amount, balance) == Some(VaultError::Reentrancy),
        withdraw_error(m, caller, amount, balance) == Some(VaultError::Reentrancy),
        emergency_withdraw_error(m, caller, amount, balance) == Some(VaultError::Reentrancy),
        claim_error(m, caller, id) == Some(VaultError::Reentrancy),
        harvest_error(m, caller, amount, balance) == Some(VaultError::Reentrancy),
        harvest_token_error(m, caller, token, amount, value, balance) == Some(
            VaultError::Reentrancy,
        ),
        distribute_yield_error(m, caller, amount, balance) == Some(VaultError::Reentrancy),
        distribute_yield_token_error(m, caller, token, amount, value, balance) == Some(
            VaultError::Reentrancy,
        ),
        collect_error(m, caller) == Some(VaultError::Reentrancy),
        withdraw_fees_error(m, caller) == Some(VaultError::Reentrancy),
        register_error(m) == Some(VaultError::Reentrancy),
        admin_error(m, caller) == Some(VaultError::Reentrancy),
        withdrawal_fee_error(m, caller, bps) == Some(VaultError::Reentrancy),
        upgrade_error(m) == Some(VaultError::Reentrancy),
        propose_error(m, caller) == Some(VaultError::Reentrancy),
        vote_error(m, caller, id) == Some(VaultError::Reentrancy),
        execute_error(m, caller, id) == Some(VaultError::Reentrancy),
        signer_error(m, caller) == Some(VaultError::Reentrancy),
        sign_error(m, caller, id) == Some(VaultError::Reentrancy),
        execute_operation_error(m, caller, id) == Some(VaultError::Reentrancy),
        remove_signer_error(m, caller, token) == Some(VaultError::Reentrancy),
        threshold_error(m, caller, bps) == Some(VaultError::Reentrancy),
{
}

/// No call is accepted in the name of an address that has not authorised it.
pub proof fn law_unauthorised_callers_are_refused(
    m: Model,
    caller: Address,
    token: Address,
    amount: i128,
    value: i128,
    balance: i128,
    id: u64,
    bps: u32,
)
    requires
        !m.locked,
        !m.has_auth(caller),
    ensures
        deposit_error(m, caller, amount, balance) == Some(VaultError::NotAuthorized),
        withdraw_error(m, caller, amount, balance) == Some(VaultError::NotAuthorized),
        emergency_withdraw_error(m, caller, amount, balance) == Some(VaultError::NotAuthorized),
        claim_error(m, caller, id) == Some(VaultError::NotAuthorized),
        harvest_error(m, caller, amount, balance) == Some(VaultError::NotAuthorized),
        harvest_token_error(m, caller, token, amount, value, balance) == Some(
            VaultError::NotAuthorized,
        ),
        distribute_yield_error(m, caller, amount, balance) == Some(VaultError::NotAuthorized),
        distribute_yield_token_error(m, caller, token, amount, value, balance) == Some(
            VaultError::NotAuthorized,
        ),
        collect_error(m, caller) == Some(VaultError::NotAuthorized),
        propose_error(m, caller) == Some(VaultError::NotAuthorized),
        vote_error(m, caller, id) == Some(VaultError::NotAuthorized),
        execute_error(m, caller, id) == Some(VaultError::NotAuthorized),
        signer_error(m, caller) == Some(VaultError::NotAuthorized),
        sign_error(m, caller, id) == Some(VaultError::NotAuthorized),
        execute_operation_error(m, caller, id) == Some(VaultError::NotAuthorized),
        admin_error(m, caller) is Some,
        withdrawal_fee_error(m, caller, bps) is Some,
        withdraw_fees_error(m, caller) is Some,
        remove_signer_error(m, caller, token) is Some,
        threshold_error(m, caller, bps) is Some,
{
}

/// Nobody but the admin is let into an administrative call.
pub proof fn law_only_the_admin_administers(
    m: Model,
    caller: Address,
    signer: Address,
    bps: u32,
)
    requires
        !m.locked,
        m.admin is Some,
        m.admin != Some(caller),
    ensures
        admin_error(m, caller) == Some(VaultError::UpgradeUnauthorized),
        withdraw_fees_error(m, caller) == Some(VaultError::UpgradeUnauthorized),
        withdrawal_fee_error(m, caller, bps) == Some(VaultError::UpgradeUnauthorized),
        remove_signer_error(m, caller, signer) == Some(VaultError::UpgradeUnauthorized),
        threshold_error(m, caller, bps) == Some(VaultError::UpgradeUnauthorized),
{
}

/// Without the admin's authorisation there is no upgrade, and no yield token
/// is registered.
pub proof fn law_only_the_admin_upgrades(m: Model)
    requires
        !m.locked,
        m.admin is Some,
        !m.has_auth(m.admin->0),
    ensures
        upgrade_error(m) == Some(VaultError::UpgradeUnauthorized),
        register_error(m) == Some(VaultError::UpgradeUnauthorized),
{
}

/// While the vault is paused, no call that moves assets is accepted, save an
/// emergency withdrawal.
pub proof fn law_pause_stops_operations(
    m: Model,
    caller: Address,
    token: Address,
    amount: i128,
    value: i128,
    balance: i128,
    id: u64,
)
    requires
        m.paused,
    ensures
        deposit_error(m, caller, amount, balance) is Some,
        withdraw_error(m, caller, amount, balance) is Some,
        withdraw_error(m, caller, amount, balance) != Some(VaultError::WithdrawalQueued),
        claim_error(m, caller, id) is Some,
        harvest_error(m, caller, amount, balance) is Some,
        harvest_token_error(m, caller, token, amount, value, balance) is Some,
        distribute_yield_error(m, caller, amount, balance) is Some,
        distribute_yield_token_error(m, caller, token, amount, value, balance) is Some,
        collect_error(m, caller) is Some,
        !m.locked && m.has_auth(caller) && m.admin is Some && amount > 0 && value > 0 ==> {
            &&& deposit_error(m, caller, amount, balance) == Some(VaultError::VaultPaused)
            &&& withdraw_error(m, caller, amount, balance) == Some(VaultError::VaultPaused)
            &&& claim_error(m, caller, id) == Some(VaultError::VaultPaused)
            &&& harvest_error(m, caller, amount, balance) == Some(VaultError::VaultPaused)
            &&& harvest_token_error(m, caller, token, amount, value, balance) == Some(
                VaultError::VaultPaused,
            )
            &&& distribute_yield_error(m, caller, amount, balance) == Some(
                VaultError::VaultPaused,
            )
            &&& distribute_yield_token_error(m, caller, token, amount, value, balance) == Some(
                VaultError::VaultPaused,
            )
            &&& collect_error(m, caller) == Some(VaultError::VaultPaused)
        },
{
}

/// Pausing and unpausing leaves nothing behind but its two events, and pausing
/// twice is pausing once.
pub proof fn law_pausing_is_reversible(m: Model)
    ensures
        !m.paused ==> after_unpause(after_pause(m)) == (Model {
            events: m.events.push(Event::Paused).push(Event::Unpaused),
            ..m
        }),
        m.paused ==> after_pause(m) == m.publish(Event::Paused),
        !m.paused ==> after_unpause(m) == m.publish(Event::Unpaused),
{
}

/// An initialised vault cannot be initialised again.
pub proof fn law_initialization_happens_once(
    m: Model,
    admin: Address,
    token: Address,
    signers: Seq<Address>,
    decimals: u32,
    price_precision: u32,
    name: Seq<char>,
    symbol: Seq<char>,
)
    ensures
        initialize_error(
            initialized(m, admin, token, signers, decimals, price_precision, name, symbol),
        ) == Some(VaultError::AlreadyInitialized),
{
}

/// Before its initialisation the vault accepts nothing.
pub proof fn law_nothing_before_initialization(
    m: Model,
    caller: Address,
    token: Address,
    amount: i128,
    value: i128,
    balance: i128,
    id: u64,
    bps: u32,
)
    requires
        m.admin is None,
    ensures
        deposit_error(m, caller, amount, balance) is Some,
        withdraw_error(m, caller, amount, balance) is Some,
        withdraw_error(m, caller, amount, balance) != Some(VaultError::WithdrawalQueued),
        emergency_withdraw_error(m, caller, amount, balance) is Some,
        claim_error(m, caller, id) is Some,
        harvest_error(m, caller, amount, balance) is Some,
        harvest_token_error(m, caller, token, amount, value, balance) is Some,
        distribute_yield_error(m, caller, amount, balance) is Some,
        distribute_yield_token_error(m, caller, token, amount, value, balance) is Some,
        collect_error(m, caller) is Some,
        admin_error(m, caller) is Some,
        withdraw_fees_error(m, caller) is Some,
        withdrawal_fee_error(m, caller, bps) is Some,
        register_error(m) is Some,
        upgrade_error(m) is Some,
{
}

/// An upgrade keeps everything but the version counter: every balance, every
/// total and every setting.
pub proof fn law_upgrade_preserves_state(m: Model)
    requires
        upgrade_error(m) is None,
        m.version < u32::MAX,
    ensures
        upgraded(m).version == m.version + 1,
        upgraded(m) == (Model {
            version: (m.version + 1) as u32,
            events: upgraded(m).events,
            ..m
        }),
        upgrade_error(upgraded(m)) is None,
{
}

/// By the time a transfer is asked for, everything is written: what is left
/// when it has been made is to report the event and to release the lock.
pub proof fn law_state_is_written_before_tokens_move(
    m: Model,
    deposit: PendingDeposit,
    withdrawal: PendingWithdraw,
    claim: PendingClaim,
    harvest: PendingHarvest,
    token_harvest: PendingHarvestToken,
    distribution: PendingDistribution,
    collection: PendingCollection,
    fees: PendingFees,
)
    ensures
        deposited(m, deposit) == (Model {
            locked: false,
            events: deposited(m, deposit).events,
            ..m
        }),
        withdrawn(m, withdrawal) == (Model {
            locked: false,
            events: withdrawn(m, withdrawal).events,
            ..m
        }),
        emergency_withdrawn(m, withdrawal) == (Model {
            locked: false,
            events: emergency_withdrawn(m, withdrawal).events,
            ..m
        }),
        claimed(m, claim) == (Model { locked: false, events: claimed(m, claim).events, ..m }),
        harvested(m, harvest) == (Model {
            locked: false,
            events: harvested(m, harvest).events,
            ..m
        }),
        harvested_token(m, token_harvest) == (Model {
            locked: false,
            events: harvested_token(m, token_harvest).events,
            ..m
        }),
        distributed(m, distribution) == (Model {
            locked: false,
            events: distributed(m, distribution).events,
            ..m
        }),
        collected(m, collection) == (Model {
            locked: false,
            events: collected(m, collection).events,
            ..m
        }),
        fees_withdrawn(m, fees) == (Model {
            locked: false,
            events: fees_withdrawn(m, fees).events,
            ..m
        }),
{
}

/// A refused call changes nothing. All it may leave is the report of a token
/// balance that is not what the vault tracks.
pub proof fn law_refused_calls_change_nothing(m: Model, error: VaultError, balance: i128)
    ensures
        refused(m, error, balance) == (Model { events: refused(m, error, balance).events, ..m }),
        error != VaultError::BalanceMismatch ==> refused(m, error, balance) == m,
        error == VaultError::BalanceMismatch ==> refused(m, error, balance).events
            == m.events.push(
            Event::BalanceMismatch {
                actual_balance: balance,
                tracked_deposited: m.total_deposited,
            },
        ),
{
}

} // verus!
