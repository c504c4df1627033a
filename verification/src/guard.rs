use crate::address::Address;
use crate::env::{Env, Model};
use crate::errors::VaultError;
use crate::events::Event;
use crate::storage::{enter_reentrancy_guard, exit_reentrancy_guard, get_admin};
use vstd::prelude::*;

verus! {

/// Whether a call ended as `error` says: with that error, or well where there
/// is none.
pub open spec fn ends_with<T>(r: Result<T, VaultError>, error: Option<VaultError>) -> bool {
    match r {
        Ok(_) => error is None,
        Err(e) => error == Some(e),
    }
}

/// Why `admin` is refused an administrative call: there is no admin yet, the
/// admin is somebody else, or the admin has not authorised the call.
pub open spec fn admin_check(m: Model, admin: Address) -> Option<VaultError> {
    if m.admin is None {
        Some(VaultError::NotInitialized)
    } else if m.admin != Some(admin) {
        Some(VaultError::UpgradeUnauthorized)
    } else if !m.has_auth(admin) {
        Some(VaultError::NotAuthorized)
    } else {
        None
    }
}

/// Why an administrative call is refused: another call is in progress, or
/// `admin` may not make it.
pub open spec fn admin_error(m: Model, admin: Address) -> Option<VaultError> {
    if m.locked {
        Some(VaultError::Reentrancy)
    } else {
        admin_check(m, admin)
    }
}

/// Checks that `admin` is the stored admin.
pub fn check_admin(env: &Env, admin: Address) -> (r: Result<(), VaultError>)
    ensures
        r == (if env@.admin is None {
            Err::<(), VaultError>(VaultError::NotInitialized)
        } else if env@.admin != Some(admin) {
            Err(VaultError::UpgradeUnauthorized)
        } else {
            Ok(())
        }),
{
    match get_admin(env) {
        None => Err(VaultError::NotInitialized),
        Some(stored) => if stored != admin {
            Err(VaultError::UpgradeUnauthorized)
        } else {
            Ok(())
        },
    }
}

/// Checks that `addr` has authorised the current call.
pub fn require_auth(env: &Env, addr: Address) -> (r: Result<(), VaultError>)
    ensures
        r == (if env@.has_auth(addr) {
            Ok::<(), VaultError>(())
        } else {
            Err(VaultError::NotAuthorized)
        }),
{
    if env.has_auth(addr) {
        Ok(())
    } else {
        Err(VaultError::NotAuthorized)
    }
}

/// Takes the lock for an administrative call of `admin`. A refused call
/// leaves the vault as it was.
pub fn enter_as_admin(env: &mut Env, admin: Address) -> (r: Result<(), VaultError>)
    ensures
        ends_with(r, admin_error(old(env)@, admin)),
        final(env)@ == (Model { locked: old(env)@.locked || r is Ok, ..old(env)@ }),
{
    enter_reentrancy_guard(env)?;
    match check_admin(env, admin) {
        Ok(_) => {},
        Err(e) => {
            exit_reentrancy_guard(env);
            return Err(e);
        },
    }
    match require_auth(env, admin) {
        Ok(_) => Ok(()),
        Err(e) => {
            exit_reentrancy_guard(env);
            Err(e)
        },
    }
}

/// The vault after a call was refused with `error`: as it was, save that a
/// token balance other than the tracked total is reported.
pub open spec fn refused(m: Model, error: VaultError, balance: i128) -> Model {
    if error == VaultError::BalanceMismatch {
        m.publish(
            Event::BalanceMismatch {
                actual_balance: balance,
                tracked_deposited: m.total_deposited,
            },
        )
    } else {
        m
    }
}

/// Ends a refused call: reports a balance mismatch and releases the lock.
pub fn refuse(env: &mut Env, error: VaultError, balance: i128)
    ensures
        final(env)@ == refused(Model { locked: false, ..old(env)@ }, error, balance),
{
    if error == VaultError::BalanceMismatch {
        let total_deposited: i128 = env.total_deposited;
        env.publish(
            Event::BalanceMismatch { actual_balance: balance, tracked_deposited: total_deposited },
        );
    }
    exit_reentrancy_guard(env);
}

} // verus!
