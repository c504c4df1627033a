use crate::address::Address;
use crate::env::{Env, Model};
use crate::errors::VaultError;
use crate::events::Event;
use crate::guard::{admin_error, ends_with, enter_as_admin};
use crate::storage;
use crate::storage::{
    enter_reentrancy_guard, exit_reentrancy_guard, get_admin, get_layout_version, get_token,
    get_total_fee_collected, get_version, set_mgmt_fee_bps, set_paused, set_perf_fee_bps,
    set_total_fee_collected, set_version, set_whitelist_enabled, set_whitelisted,
    CURRENT_LAYOUT_VERSION,
};
use crate::transfer::{assert_outgoing_transfer, delta_error, Transfer};
use crate::vault::AuraVault;
use vstd::prelude::*;

verus! {

/// A payment of fees that is booked and whose tokens are still to be sent to
/// the treasury.
#[derive(Debug)]
pub struct PendingFees {
    /// The transfer that completes the payment.
    pub transfer: Transfer,
    pub admin: Address,
    pub treasury: Address,
    pub fees: i128,
}

/// What comes of an accepted call of [`AuraVault::withdraw_fees`].
#[derive(Debug)]
pub enum FeeWithdrawal {
    /// No fees have accumulated.
    Nothing,
    /// The fees are to be sent.
    Payment(PendingFees),
}

/// The vault after a pause.
pub open spec fn after_pause(m: Model) -> Model {
    Model { paused: true, ..m }.publish(Event::Paused)
}

/// The vault after an unpause.
pub open spec fn after_unpause(m: Model) -> Model {
    Model { paused: false, ..m }.publish(Event::Unpaused)
}

/// Why a payment of fees is refused.
pub open spec fn withdraw_fees_error(m: Model, admin: Address) -> Option<VaultError> {
    if admin_error(m, admin) is Some {
        admin_error(m, admin)
    } else if m.total_fee_collected > 0 && (m.treasury is None || m.token is None) {
        Some(VaultError::NotInitialized)
    } else {
        None
    }
}

/// The payment that an accepted call leaves to be completed.
pub open spec fn fees_pending(m: Model, admin: Address) -> PendingFees {
    PendingFees {
        transfer: Transfer::Push {
            token: m.token->0,
            to: m.treasury->0,
            amount: m.total_fee_collected,
        },
        admin,
        treasury: m.treasury->0,
        fees: m.total_fee_collected,
    }
}

/// The vault after a completed payment of fees.
pub open spec fn fees_withdrawn(m: Model, p: PendingFees) -> Model {
    Model { locked: false, ..m }.publish(
        Event::FeesWithdrawn { admin: p.admin, fees: p.fees, treasury: p.treasury },
    )
}

/// The vault with the fees of a payment booked back.
pub open spec fn fees_owed(m: Model, p: PendingFees) -> Model {
    Model { locked: false, total_fee_collected: p.fees, ..m }
}

/// Why an upgrade is refused.
pub open spec fn upgrade_error(m: Model) -> Option<VaultError> {
    if m.locked {
        Some(VaultError::Reentrancy)
    } else if m.admin is None {
        Some(VaultError::NotInitialized)
    } else if !m.has_auth(m.admin->0) {
        Some(VaultError::UpgradeUnauthorized)
    } else if m.layout_version != CURRENT_LAYOUT_VERSION {
        Some(VaultError::StorageLayoutMismatch)
    } else {
        None
    }
}

/// The vault after an upgrade: only the version counter has moved.
pub open spec fn upgraded(m: Model) -> Model {
    let new_version = (m.version + 1) as u32;
    Model { version: new_version, ..m }.publish(
        Event::Upgrade { admin: m.admin->0, old_version: m.version, new_version },
    )
}

impl AuraVault {
    /// Halts all operations that move assets. Pausing a paused vault is allowed.
    pub fn pause(env: &mut Env, admin: Address) -> (r: Result<(), VaultError>)
        ensures
            ends_with(r, admin_error(old(env)@, admin)),
            final(env)@ == (if r is Ok {
                after_pause(old(env)@)
            } else {
                old(env)@
            }),
    {
        enter_as_admin(env, admin)?;
        set_paused(env, true);
        env.publish(Event::Paused);
        exit_reentrancy_guard(env);
        Ok(())
    }

    /// Resumes operations. Unpausing a vault that is not paused is allowed.
    pub fn unpause(env: &mut Env, admin: Address) -> (r: Result<(), VaultError>)
        ensures
            ends_with(r, admin_error(old(env)@, admin)),
            final(env)@ == (if r is Ok {
                after_unpause(old(env)@)
            } else {
                old(env)@
            }),
    {
        enter_as_admin(env, admin)?;
        set_paused(env, false);
        env.publish(Event::Unpaused);
        exit_reentrancy_guard(env);
        Ok(())
    }

    /// Sets the performance fee and the management fee in basis points.
    pub fn set_fees(
        env: &mut Env,
        admin: Address,
        perf_fee_bps: u32,
        mgmt_fee_bps: u32,
    ) -> (r: Result<(), VaultError>)
        ensures
            ends_with(r, admin_error(old(env)@, admin)),
            final(env)@ == (if r is Ok {
                Model { perf_fee_bps, mgmt_fee_bps, ..old(env)@ }
            } else {
                old(env)@
            }),
    {
        enter_as_admin(env, admin)?;
        set_perf_fee_bps(env, perf_fee_bps);
        set_mgmt_fee_bps(env, mgmt_fee_bps);
        exit_reentrancy_guard(env);
        Ok(())
    }

    /// Sets the address to which fees are paid.
    pub fn set_treasury(
        env: &mut Env,
        admin: Address,
        treasury: Address,
    ) -> (r: Result<(), VaultError>)
        ensures
            ends_with(r, admin_error(old(env)@, admin)),
            final(env)@ == (if r is Ok {
                Model { treasury: Some(treasury), ..old(env)@ }
            } else {
                old(env)@
            }),
    {
        enter_as_admin(env, admin)?;
        storage::set_treasury(env, treasury);
        exit_reentrancy_guard(env);
        Ok(())
    }

    /// Sets the cap on total assets; 0 lifts it.
    pub fn set_tvl_cap(env: &mut Env, admin: Address, cap: i128) -> (r: Result<(), VaultError>)
        ensures
            ends_with(r, admin_error(old(env)@, admin)),
            final(env)@ == (if r is Ok {
                Model { tvl_cap: cap, ..old(env)@ }
            } else {
                old(env)@
            }),
    {
        enter_as_admin(env, admin)?;
        storage::set_tvl_cap(env, cap);
        exit_reentrancy_guard(env);
        Ok(())
    }

    /// Restricts deposits to whitelisted addresses.
    pub fn enable_whitelist(env: &mut Env, admin: Address) -> (r: Result<(), VaultError>)
        ensures
            ends_with(r, admin_error(old(env)@, admin)),
            final(env)@ == (if r is Ok {
                Model {
                    whitelist_enabled: true,
                    ..old(env)@
                }.publish(Event::WhitelistEnabled { admin })
            } else {
                old(env)@
            }),
    {
        enter_as_admin(env, admin)?;
        set_whitelist_enabled(env, true);
        env.publish(Event::WhitelistEnabled { admin });
        exit_reentrancy_guard(env);
        Ok(())
    }

    /// Opens deposits to every address.
    pub fn disable_whitelist(env: &mut Env, admin: Address) -> (r: Result<(), VaultError>)
        ensures
            ends_with(r, admin_error(old(env)@, admin)),
            final(env)@ == (if r is Ok {
                Model {
                    whitelist_enabled: false,
                    ..old(env)@
                }.publish(Event::WhitelistDisabled { admin })
            } else {
                old(env)@
            }),
    {
        enter_as_admin(env, admin)?;
        set_whitelist_enabled(env, false);
        env.publish(Event::WhitelistDisabled { admin });
        exit_reentrancy_guard(env);
        Ok(())
    }

    /// Puts an address on the whitelist.
    pub fn add_to_whitelist(
        env: &mut Env,
        admin: Address,
        addr: Address,
    ) -> (r: Result<(), VaultError>)
        ensures
            ends_with(r, admin_error(old(env)@, admin)),
            final(env)@ == (if r is Ok {
                Model {
                    whitelist: old(env)@.whitelist.insert(addr.id, true),
                    ..old(env)@
                }.publish(Event::WhitelistAdded { admin, addr })
            } else {
                old(env)@
            }),
    {
        enter_as_admin(env, admin)?;
        set_whitelisted(env, addr, true);
        env.publish(Event::WhitelistAdded { admin, addr });
        exit_reentrancy_guard(env);
        Ok(())
    }

    /// Takes an address off the whitelist.
    pub fn remove_from_whitelist(
        env: &mut Env,
        admin: Address,
        addr: Address,
    ) -> (r: Result<(), VaultError>)
        ensures
            ends_with(r, admin_error(old(env)@, admin)),
            final(env)@ == (if r is Ok {
                Model {
                    whitelist: old(env)@.whitelist.insert(addr.id, false),
                    ..old(env)@
                }.publish(Event::WhitelistRemoved { admin, addr })
            } else {
                old(env)@
            }),
    {
        enter_as_admin(env, admin)?;
        set_whitelisted(env, addr, false);
        env.publish(Event::WhitelistRemoved { admin, addr });
        exit_reentrancy_guard(env);
        Ok(())
    }

    /// Sets the minimum deposit.
    pub fn set_min_deposit(
        env: &mut Env,
        admin: Address,
        amount: i128,
    ) -> (r: Result<(), VaultError>)
        ensures
            ends_with(r, admin_error(old(env)@, admin)),
            final(env)@ == (if r is Ok {
                Model {
                    min_deposit: amount,
                    ..old(env)@
                }.publish(Event::MinDepositSet { admin, amount })
            } else {
                old(env)@
            }),
    {
        enter_as_admin(env, admin)?;
        storage::set_min_deposit(env, amount);
        env.publish(Event::MinDepositSet { admin, amount });
        exit_reentrancy_guard(env);
        Ok(())
    }

    /// Sets the price oracle.
    pub fn set_oracle_address(
        env: &mut Env,
        admin: Address,
        oracle: Address,
    ) -> (r: Result<(), VaultError>)
        ensures
            ends_with(r, admin_error(old(env)@, admin)),
            final(env)@ == (if r is Ok {
                Model { oracle_address: Some(oracle), ..old(env)@ }
            } else {
                old(env)@
            }),
    {
        enter_as_admin(env, admin)?;
        env.oracle_address = Some(oracle);
        exit_reentrancy_guard(env);
        Ok(())
    }

    /// Sets the age in seconds at which an oracle price is stale.
    pub fn set_oracle_max_age(
        env: &mut Env,
        admin: Address,
        secs: u64,
    ) -> (r: Result<(), VaultError>)
        ensures
            ends_with(r, admin_error(old(env)@, admin)),
            final(env)@ == (if r is Ok {
                Model { oracle_max_age: secs, ..old(env)@ }
            } else {
                old(env)@
            }),
    {
        enter_as_admin(env, admin)?;
        env.oracle_max_age = secs;
        exit_reentrancy_guard(env);
        Ok(())
    }

    /// Starts the payment of all accumulated fees to the treasury.
    ///
    /// Where no fees have accumulated, the call is complete. Otherwise the
    /// fees are booked out before any token moves; the call holds the
    /// reentrancy lock and asks for a transfer to the treasury;
    /// [`AuraVault::finish_withdraw_fees`] completes it.
    pub fn withdraw_fees(env: &mut Env, admin: Address) -> (r: Result<FeeWithdrawal, VaultError>)
        ensures
            ends_with(r, withdraw_fees_error(old(env)@, admin)),
            match r {
                Ok(FeeWithdrawal::Nothing) => {
                    &&& old(env)@.total_fee_collected <= 0
                    &&& final(env)@ == old(env)@
                },
                Ok(FeeWithdrawal::Payment(p)) => {
                    &&& old(env)@.total_fee_collected > 0
                    &&& p == fees_pending(old(env)@, admin)
                    &&& final(env)@ == (Model {
                        locked: true,
                        total_fee_collected: 0,
                        ..old(env)@
                    })
                },
                Err(_) => final(env)@ == old(env)@,
            },
    {
        enter_as_admin(env, admin)?;
        let fees: i128 = get_total_fee_collected(env);
        if fees <= 0 {
            exit_reentrancy_guard(env);
            return Ok(FeeWithdrawal::Nothing);
        }
        match (storage::get_treasury(env), get_token(env)) {
            (Some(treasury), Some(token)) => {
                set_total_fee_collected(env, 0);
                Ok(
                    FeeWithdrawal::Payment(
                        PendingFees {
                            transfer: Transfer::Push { token, to: treasury, amount: fees },
                            admin,
                            treasury,
                            fees,
                        },
                    ),
                )
            },
            _ => {
                exit_reentrancy_guard(env);
                Err(VaultError::NotInitialized)
            },
        }
    }

    /// Completes a payment of fees once its transfer has been made, and
    /// returns the tokens that were sent.
    ///
    /// `balance_before` and `balance_after` are the vault's balances of the
    /// underlying token around the transfer. Unless exactly the fees left,
    /// they are owed again.
    pub fn finish_withdraw_fees(
        env: &mut Env,
        pending: PendingFees,
        balance_before: i128,
        balance_after: i128,
    ) -> (r: Result<i128, VaultError>)
        ensures
            ends_with(r, delta_error(balance_before - balance_after, pending.fees)),
            match r {
                Ok(fees) => {
                    &&& fees == pending.fees
                    &&& final(env)@ == fees_withdrawn(old(env)@, pending)
                },
                Err(_) => final(env)@ == fees_owed(old(env)@, pending),
            },
    {
        exit_reentrancy_guard(env);
        match assert_outgoing_transfer(balance_before, balance_after, pending.fees) {
            Ok(_) => {},
            Err(e) => {
                set_total_fee_collected(env, pending.fees);
                return Err(e);
            },
        }
        env.publish(
            Event::FeesWithdrawn {
                admin: pending.admin,
                fees: pending.fees,
                treasury: pending.treasury,
            },
        );
        Ok(pending.fees)
    }

    /// Moves the contract to new code, and returns the hash of the code that
    /// is to be installed.
    ///
    /// The admin has to authorise the call, and the stored entries have to be
    /// laid out as this code expects them.
    pub fn upgrade(env: &mut Env, new_wasm_hash: [u8; 32]) -> (r: Result<[u8; 32], VaultError>)
        requires
            upgrade_error(old(env)@) is None ==> old(env)@.version < u32::MAX,
        ensures
            ends_with(r, upgrade_error(old(env)@)),
            match r {
                Ok(hash) => {
                    &&& hash == new_wasm_hash
                    &&& final(env)@ == upgraded(old(env)@)
                },
                Err(_) => final(env)@ == old(env)@,
            },
    {
        if env.locked {
            return Err(VaultError::Reentrancy);
        }
        let admin = get_admin(env).ok_or(VaultError::NotInitialized)?;
        if !env.has_auth(admin) {
            return Err(VaultError::UpgradeUnauthorized);
        }
        if get_layout_version(env) != CURRENT_LAYOUT_VERSION {
            return Err(VaultError::StorageLayoutMismatch);
        }
        enter_reentrancy_guard(env)?;
        let old_version: u32 = get_version(env);
        let new_version: u32 = old_version + 1;
        set_version(env, new_version);
        env.publish(Event::Upgrade { admin, old_version, new_version });
        exit_reentrancy_guard(env);
        Ok(new_wasm_hash)
    }
}

} // verus!
