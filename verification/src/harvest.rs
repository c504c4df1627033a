use crate::address::Address;
use crate::env::{Env, Model};
use crate::errors::VaultError;
use crate::events::Event;
use crate::fee::{calc_perf_fee, perf_fee_of, BPS_DENOMINATOR};
use crate::guard::{admin_error, ends_with, enter_as_admin, refuse, refused, require_auth};
use crate::math::{clamped, fits, minus, plus, quotient, saturating_mul_div};
use crate::oracle::{oracle_price_error, validate_oracle_price, ORACLE_DEFAULT_MAX_AGE_SECS};
use crate::storage;
use crate::storage::{
    enter_reentrancy_guard, exit_reentrancy_guard, get_admin, get_harvest_cooldown_secs,
    get_last_harvest_time, get_perf_fee_bps, get_token, get_total_deposited,
    get_total_fee_collected, get_total_shares, is_paused, is_yield_token,
    set_harvest_cooldown_secs, set_last_harvest_time, set_paused, set_total_deposited,
    set_total_fee_collected, set_yield_token,
};
use crate::transfer::{assert_incoming_transfer, delta_error, Transfer};
use crate::undo::{entry_of, put_back, with_entry};
use crate::vault::AuraVault;
use vstd::prelude::*;

verus! {

/// Scale of the share prices that harvests record.
pub const SNAPSHOT_PRECISION: u64 = 1_000_000;

/// What a harvest overwrites, kept so that it can be undone.
#[derive(Clone, Copy, Debug, PartialEq, Eq, Structural)]
pub struct HarvestUndo {
    pub total_deposited: i128,
    pub total_fee_collected: i128,
    pub last_harvest_time: u64,
    /// The share price that was recorded for the same time, if one was.
    pub snapshot: Option<i128>,
}

/// A harvest that is credited and whose yield is still to be pulled from the
/// keeper.
#[derive(Debug)]
pub struct PendingHarvest {
    /// The transfer that completes the harvest.
    pub transfer: Transfer,
    pub caller: Address,
    pub yield_amount: i128,
    pub yield_after_fee: i128,
    pub fee_amount: i128,
    /// Assets tracked after the harvest.
    pub total_deposited: i128,
    /// Fees collected after the harvest.
    pub total_fee_collected: i128,
    /// Share price after the harvest, scaled by `SNAPSHOT_PRECISION`.
    pub share_price: i128,
    /// When the harvest was made.
    pub timestamp: u64,
    pub undo: HarvestUndo,
}

/// A harvest of another token that is credited and whose yield is still to be
/// pulled from the keeper.
#[derive(Debug)]
pub struct PendingHarvestToken {
    /// The transfer that completes the harvest.
    pub transfer: Transfer,
    pub caller: Address,
    pub alt_token: Address,
    pub yield_amount: i128,
    pub net_underlying: i128,
    pub fee_amount: i128,
    /// Assets tracked before the harvest.
    pub old_total_deposited: i128,
    /// Fees collected before the harvest.
    pub old_fee_collected: i128,
}

/// Whether the cooldown after the last harvest is still running. The first
/// harvest never has to wait.
pub open spec fn cooling_down(m: Model) -> bool {
    m.harvest_cooldown_secs > 0 && m.last_harvest_time > 0 && m.timestamp - m.last_harvest_time
        <= m.harvest_cooldown_secs
}

/// How far a number is from zero.
pub open spec fn magnitude(x: int) -> int {
    if x < 0 {
        -x
    } else {
        x
    }
}

/// Whether the price limit applies to a harvest.
pub open spec fn price_limited(m: Model) -> bool {
    m.price_movement_limit > 0 && m.total_deposited > 0
}

/// Whether the price limit can be evaluated for a new total.
pub open spec fn limit_computable(m: Model, new_total: int) -> bool {
    fits(magnitude(new_total - m.total_deposited) * BPS_DENOMINATOR) && fits(
        m.total_deposited * m.price_movement_limit,
    )
}

/// Whether moving the tracked total to `new_total` moves the share price by
/// more than the limit, in either direction.
pub open spec fn moves_too_far(m: Model, new_total: int) -> bool {
    magnitude(new_total - m.total_deposited) * BPS_DENOMINATOR > m.total_deposited
        * m.price_movement_limit
}

/// The fee on a harvest of `amount`.
pub open spec fn harvest_fee(m: Model, amount: i128) -> Option<i128> {
    perf_fee_of(amount, m.perf_fee_bps)
}

/// The assets tracked after a harvest of `amount`.
pub open spec fn harvest_total(m: Model, amount: i128) -> int {
    m.total_deposited + (amount - harvest_fee(m, amount)->0)
}

/// The share price that a harvest of `amount` records: the assets per share
/// after the harvest, scaled and rounded toward zero. A price that is out of
/// range is recorded as the nearest amount.
pub open spec fn harvest_price(m: Model, amount: i128) -> i128 {
    clamped(quotient(harvest_total(m, amount) * SNAPSHOT_PRECISION, m.total_shares as int)) as i128
}

/// Why a harvest is refused before any token moves.
pub open spec fn harvest_error(m: Model, caller: Address, amount: i128, balance: i128) -> Option<
    VaultError,
> {
    let fee = harvest_fee(m, amount);
    let new_total = harvest_total(m, amount);
    if m.locked {
        Some(VaultError::Reentrancy)
    } else if !m.has_auth(caller) {
        Some(VaultError::NotAuthorized)
    } else if amount <= 0 {
        Some(VaultError::ZeroAmount)
    } else if m.admin is None {
        Some(VaultError::NotInitialized)
    } else if m.paused {
        Some(VaultError::VaultPaused)
    } else if m.total_shares == 0 {
        Some(VaultError::ZeroShares)
    } else if cooling_down(m) {
        Some(VaultError::HarvestCooldown)
    } else if m.token is None {
        Some(VaultError::NotInitialized)
    } else if balance != m.total_deposited {
        Some(VaultError::BalanceMismatch)
    } else if fee is None || !fits(amount - fee->0) || !fits(m.total_fee_collected + fee->0)
        || !fits(new_total) {
        Some(VaultError::MathOverflow)
    } else if price_limited(m) && !limit_computable(m, new_total) {
        Some(VaultError::MathOverflow)
    } else if price_limited(m) && moves_too_far(m, new_total) {
        Some(VaultError::CircuitBreakerTripped)
    } else {
        None
    }
}

/// The harvest that an accepted call leaves to be completed.
pub open spec fn harvest_pending(m: Model, caller: Address, amount: i128) -> PendingHarvest {
    let fee_amount = harvest_fee(m, amount)->0;
    PendingHarvest {
        transfer: Transfer::Pull { token: m.token->0, from: caller, amount },
        caller,
        yield_amount: amount,
        yield_after_fee: (amount - fee_amount) as i128,
        fee_amount,
        total_deposited: harvest_total(m, amount) as i128,
        total_fee_collected: (m.total_fee_collected + fee_amount) as i128,
        share_price: harvest_price(m, amount),
        timestamp: m.timestamp,
        undo: HarvestUndo {
            total_deposited: m.total_deposited,
            total_fee_collected: m.total_fee_collected,
            last_harvest_time: m.last_harvest_time,
            snapshot: entry_of(m.price_snapshots, m.timestamp),
        },
    }
}

/// The vault with a harvest credited: more assets and the same shares.
pub open spec fn harvest_credited(m: Model, amount: i128) -> Model {
    Model {
        total_deposited: harvest_total(m, amount) as i128,
        total_fee_collected: (m.total_fee_collected + harvest_fee(m, amount)->0) as i128,
        last_harvest_time: m.timestamp,
        price_snapshots: m.price_snapshots.insert(m.timestamp, harvest_price(m, amount)),
        ..m
    }
}

/// The vault after a harvest of `amount` tripped the circuit breaker: it is
/// paused and the movement is reported.
pub open spec fn tripped(m: Model, amount: i128) -> Model {
    Model { paused: true, ..m }.publish(
        Event::PriceMovement {
            total_deposited: m.total_deposited,
            new_total: harvest_total(m, amount) as i128,
            limit_bps: m.price_movement_limit,
        },
    )
}

/// The vault after a completed harvest.
pub open spec fn harvested(m: Model, p: PendingHarvest) -> Model {
    Model { locked: false, ..m }.publish(
        Event::Harvest {
            caller: p.caller,
            yield_amount: p.yield_amount,
            yield_after_fee: p.yield_after_fee,
            fee_amount: p.fee_amount,
            total_deposited: p.total_deposited,
        },
    )
}

/// The vault with the credit of a harvest taken back.
pub open spec fn unharvested(m: Model, p: PendingHarvest) -> Model {
    Model {
        locked: false,
        total_deposited: p.undo.total_deposited,
        total_fee_collected: p.undo.total_fee_collected,
        last_harvest_time: p.undo.last_harvest_time,
        price_snapshots: with_entry(m.price_snapshots, p.timestamp, p.undo.snapshot),
        ..m
    }
}

/// The fee on a harvest of another token worth `underlying_amount`: none
/// where its arithmetic overflows.
pub open spec fn harvest_token_fee(m: Model, underlying_amount: i128) -> i128 {
    match perf_fee_of(underlying_amount, m.perf_fee_bps) {
        Some(fee) => fee,
        None => 0,
    }
}

/// The assets tracked after a harvest of another token worth
/// `underlying_amount`.
pub open spec fn harvest_token_total(m: Model, underlying_amount: i128) -> int {
    m.total_deposited + (underlying_amount - harvest_token_fee(m, underlying_amount))
}

/// Why a harvest of another token is refused before any token moves.
pub open spec fn harvest_token_error(
    m: Model,
    caller: Address,
    alt_token: Address,
    yield_amount: i128,
    underlying_amount: i128,
    balance: i128,
) -> Option<VaultError> {
    let fee = harvest_token_fee(m, underlying_amount);
    let price_error = oracle_price_error(
        m.timestamp,
        underlying_amount,
        m.timestamp,
        ORACLE_DEFAULT_MAX_AGE_SECS,
    );
    if m.locked {
        Some(VaultError::Reentrancy)
    } else if !m.has_auth(caller) {
        Some(VaultError::NotAuthorized)
    } else if yield_amount <= 0 || underlying_amount <= 0 {
        Some(VaultError::ZeroAmount)
    } else if m.admin is None {
        Some(VaultError::NotInitialized)
    } else if m.paused {
        Some(VaultError::VaultPaused)
    } else if m.total_shares == 0 {
        Some(VaultError::ZeroShares)
    } else if !m.accepts_yield_token(alt_token) {
        Some(VaultError::InvalidAddress)
    } else if m.token is None {
        Some(VaultError::NotInitialized)
    } else if balance != m.total_deposited {
        Some(VaultError::BalanceMismatch)
    } else if !fits(underlying_amount - fee) {
        Some(VaultError::MathOverflow)
    } else if price_error is Some {
        price_error
    } else if !fits(harvest_token_total(m, underlying_amount)) || !fits(
        m.total_fee_collected + fee,
    ) {
        Some(VaultError::MathOverflow)
    } else {
        None
    }
}

/// The harvest of another token that an accepted call leaves to be completed.
pub open spec fn harvest_token_pending(
    m: Model,
    caller: Address,
    alt_token: Address,
    yield_amount: i128,
    underlying_amount: i128,
) -> PendingHarvestToken {
    let fee_amount = harvest_token_fee(m, underlying_amount);
    PendingHarvestToken {
        transfer: Transfer::Pull { token: alt_token, from: caller, amount: yield_amount },
        caller,
        alt_token,
        yield_amount,
        net_underlying: (underlying_amount - fee_amount) as i128,
        fee_amount,
        old_total_deposited: m.total_deposited,
        old_fee_collected: m.total_fee_collected,
    }
}

/// The vault with a harvest of another token credited.
pub open spec fn harvest_token_credited(m: Model, underlying_amount: i128) -> Model {
    Model {
        total_deposited: harvest_token_total(m, underlying_amount) as i128,
        total_fee_collected: (m.total_fee_collected + harvest_token_fee(m, underlying_amount))
            as i128,
        ..m
    }
}

/// The vault after a completed harvest of another token.
pub open spec fn harvested_token(m: Model, p: PendingHarvestToken) -> Model {
    Model { locked: false, ..m }.publish(
        Event::HarvestToken {
            caller: p.caller,
            alt_token: p.alt_token,
            yield_amount: p.yield_amount,
            net_underlying: p.net_underlying,
            fee_amount: p.fee_amount,
        },
    )
}

/// The vault with the credit of a harvest of another token taken back.
pub open spec fn unharvested_token(m: Model, p: PendingHarvestToken) -> Model {
    Model {
        locked: false,
        total_deposited: p.old_total_deposited,
        total_fee_collected: p.old_fee_collected,
        ..m
    }
}

/// Why the registration of a yield token is refused.
pub open spec fn register_error(m: Model) -> Option<VaultError> {
    if m.locked {
        Some(VaultError::Reentrancy)
    } else if m.admin is None {
        Some(VaultError::NotInitialized)
    } else if !m.has_auth(m.admin->0) {
        Some(VaultError::UpgradeUnauthorized)
    } else {
        None
    }
}

/// The end of the running cooldown, which is the last second at which a harvest
/// is still refused; 0 when no cooldown is running.
pub open spec fn next_harvest_time(m: Model) -> u64 {
    if !cooling_down(m) {
        0
    } else if m.last_harvest_time + m.harvest_cooldown_secs > u64::MAX {
        u64::MAX
    } else {
        (m.last_harvest_time + m.harvest_cooldown_secs) as u64
    }
}

/// Whether the cooldown after the last harvest is still running.
fn is_cooling_down(env: &Env) -> (r: bool)
    ensures
        r == cooling_down(env@),
{
    let cooldown_secs: u64 = get_harvest_cooldown_secs(env);
    let last_harvest: u64 = get_last_harvest_time(env);
    if cooldown_secs > 0 && last_harvest > 0 {
        let elapsed: u64 = env.timestamp.saturating_sub(last_harvest);
        elapsed <= cooldown_secs
    } else {
        false
    }
}

/// Checks that moving the tracked total to `new_total` stays within the price
/// limit.
fn check_price_movement(env: &Env, new_total: i128) -> (r: Result<(), VaultError>)
    ensures
        ends_with(
            r,
            if price_limited(env@) && !limit_computable(env@, new_total as int) {
                Some(VaultError::MathOverflow)
            } else if price_limited(env@) && moves_too_far(env@, new_total as int) {
                Some(VaultError::CircuitBreakerTripped)
            } else {
                None
            },
        ),
{
    let limit_bps: u32 = storage::get_price_movement_limit(env);
    let total_deposited: i128 = get_total_deposited(env);
    if limit_bps > 0 && total_deposited > 0 {
        let change: i128 = match new_total.checked_sub(total_deposited) {
            Some(change) => change,
            None => {
                return Err(VaultError::MathOverflow);
            },
        };
        if change == i128::MIN {
            return Err(VaultError::MathOverflow);
        }
        let delta: i128 = if change < 0 {
            -change
        } else {
            change
        };
        let movement: i128 = delta.checked_mul(BPS_DENOMINATOR).ok_or(VaultError::MathOverflow)?;
        let allowed: i128 = total_deposited.checked_mul(limit_bps as i128).ok_or(
            VaultError::MathOverflow,
        )?;
        if movement > allowed {
            return Err(VaultError::CircuitBreakerTripped);
        }
    }
    Ok(())
}

/// Checks a harvest and computes its fee and the total that it leaves.
fn price_harvest(env: &Env, caller: Address, amount: i128, balance: i128) -> (r: Result<
    PendingHarvest,
    VaultError,
>)
    requires
        !env@.locked,
    ensures
        ends_with(r, harvest_error(env@, caller, amount, balance)),
        r is Ok ==> r->Ok_0 == harvest_pending(env@, caller, amount),
        r is Err && r->Err_0 == VaultError::CircuitBreakerTripped ==> fits(
            harvest_total(env@, amount),
        ),
{
    require_auth(env, caller)?;
    if amount <= 0 {
        return Err(VaultError::ZeroAmount);
    }
    if get_admin(env).is_none() {
        return Err(VaultError::NotInitialized);
    }
    if is_paused(env) {
        return Err(VaultError::VaultPaused);
    }
    let total_shares: i128 = get_total_shares(env);
    if total_shares == 0 {
        return Err(VaultError::ZeroShares);
    }
    if is_cooling_down(env) {
        return Err(VaultError::HarvestCooldown);
    }
    let total_deposited: i128 = get_total_deposited(env);
    let token = get_token(env).ok_or(VaultError::NotInitialized)?;
    if balance != total_deposited {
        return Err(VaultError::BalanceMismatch);
    }
    let fee_amount: i128 = calc_perf_fee(amount, get_perf_fee_bps(env))?;
    let yield_after_fee: i128 = minus(amount, fee_amount)?;
    let total_fee_collected: i128 = get_total_fee_collected(env);
    let new_fees: i128 = plus(total_fee_collected, fee_amount)?;
    let new_total: i128 = plus(total_deposited, yield_after_fee)?;
    check_price_movement(env, new_total)?;
    let share_price: i128 = saturating_mul_div(new_total, SNAPSHOT_PRECISION, total_shares);
    Ok(
        PendingHarvest {
            transfer: Transfer::Pull { token, from: caller, amount },
            caller,
            yield_amount: amount,
            yield_after_fee,
            fee_amount,
            total_deposited: new_total,
            total_fee_collected: new_fees,
            share_price,
            timestamp: env.timestamp,
            undo: HarvestUndo {
                total_deposited,
                total_fee_collected,
                last_harvest_time: get_last_harvest_time(env),
                snapshot: env.price_snapshots.get(env.timestamp),
            },
        },
    )
}

/// Checks a harvest of another token and computes its fee and the total that
/// it leaves.
fn price_harvest_token(
    env: &Env,
    caller: Address,
    alt_token: Address,
    yield_amount: i128,
    underlying_amount: i128,
    balance: i128,
) -> (r: Result<PendingHarvestToken, VaultError>)
    requires
        !env@.locked,
    ensures
        ends_with(
            r,
            harvest_token_error(
                env@,
                caller,
                alt_token,
                yield_amount,
                underlying_amount,
                balance,
            ),
        ),
        r is Ok ==> r->Ok_0 == harvest_token_pending(
            env@,
            caller,
            alt_token,
            yield_amount,
            underlying_amount,
        ),
{
    require_auth(env, caller)?;
    if yield_amount <= 0 || underlying_amount <= 0 {
        return Err(VaultError::ZeroAmount);
    }
    if get_admin(env).is_none() {
        return Err(VaultError::NotInitialized);
    }
    if is_paused(env) {
        return Err(VaultError::VaultPaused);
    }
    if get_total_shares(env) == 0 {
        return Err(VaultError::ZeroShares);
    }
    if !is_yield_token(env, alt_token) {
        return Err(VaultError::InvalidAddress);
    }
    let total_deposited: i128 = get_total_deposited(env);
    if get_token(env).is_none() {
        return Err(VaultError::NotInitialized);
    }
    if balance != total_deposited {
        return Err(VaultError::BalanceMismatch);
    }
    let fee_amount: i128 = match calc_perf_fee(underlying_amount, get_perf_fee_bps(env)) {
        Ok(fee) => fee,
        Err(_) => 0,
    };
    let net_underlying: i128 = minus(underlying_amount, fee_amount)?;
    validate_oracle_price(
        env.timestamp,
        underlying_amount,
        env.timestamp,
        ORACLE_DEFAULT_MAX_AGE_SECS,
    )?;
    plus(total_deposited, net_underlying)?;
    let total_fee_collected: i128 = get_total_fee_collected(env);
    plus(total_fee_collected, fee_amount)?;
    Ok(
        PendingHarvestToken {
            transfer: Transfer::Pull { token: alt_token, from: caller, amount: yield_amount },
            caller,
            alt_token,
            yield_amount,
            net_underlying,
            fee_amount,
            old_total_deposited: total_deposited,
            old_fee_collected: total_fee_collected,
        },
    )
}

impl AuraVault {
    /// Starts a harvest: the injection of `yield_amount` underlying tokens
    /// without new shares.
    ///
    /// `balance` is the vault's balance of the underlying token. Any keeper
    /// may harvest. A harvest that would move the share price by more than
    /// the limit pauses the vault instead. The yield is credited before any
    /// token moves. An accepted harvest holds the reentrancy lock and asks
    /// for a transfer from the caller; [`AuraVault::finish_harvest`]
    /// completes it.
    pub fn harvest(env: &mut Env, caller: Address, yield_amount: i128, balance: i128) -> (r: Result<
        PendingHarvest,
        VaultError,
    >)
        ensures
            ends_with(r, harvest_error(old(env)@, caller, yield_amount, balance)),
            match r {
                Ok(p) => {
                    &&& p == harvest_pending(old(env)@, caller, yield_amount)
                    &&& final(env)@ == (Model {
                        locked: true,
                        ..harvest_credited(old(env)@, yield_amount)
                    })
                },
                Err(e) => final(env)@ == (if e == VaultError::CircuitBreakerTripped {
                    tripped(old(env)@, yield_amount)
                } else {
                    refused(old(env)@, e, balance)
                }),
            },
    {
        if env.locked {
            return Err(VaultError::Reentrancy);
        }
        let p = match price_harvest(env, caller, yield_amount, balance) {
            Ok(p) => p,
            Err(VaultError::CircuitBreakerTripped) => {
                let total_deposited: i128 = get_total_deposited(env);
                let fee_amount: i128 = calc_perf_fee(yield_amount, get_perf_fee_bps(env))?;
                let new_total: i128 = plus(total_deposited, minus(yield_amount, fee_amount)?)?;
                let limit_bps: u32 = storage::get_price_movement_limit(env);
                set_paused(env, true);
                env.publish(Event::PriceMovement { total_deposited, new_total, limit_bps });
                return Err(VaultError::CircuitBreakerTripped);
            },
            Err(e) => {
                refuse(env, e, balance);
                return Err(e);
            },
        };
        enter_reentrancy_guard(env)?;
        set_total_deposited(env, p.total_deposited);
        set_total_fee_collected(env, p.total_fee_collected);
        set_last_harvest_time(env, p.timestamp);
        env.price_snapshots.set(p.timestamp, p.share_price);
        Ok(p)
    }

    /// Completes a harvest once its transfer has been made.
    ///
    /// `balance_before` and `balance_after` are the vault's balances of the
    /// underlying token around the transfer. Unless exactly the yield
    /// arrived, the credit is taken back.
    pub fn finish_harvest(
        env: &mut Env,
        pending: PendingHarvest,
        balance_before: i128,
        balance_after: i128,
    ) -> (r: Result<(), VaultError>)
        ensures
            ends_with(r, delta_error(balance_after - balance_before, pending.yield_amount)),
            final(env)@ == (if r is Ok {
                harvested(old(env)@, pending)
            } else {
                unharvested(old(env)@, pending)
            }),
    {
        exit_reentrancy_guard(env);
        match assert_incoming_transfer(balance_before, balance_after, pending.yield_amount) {
            Ok(_) => {},
            Err(e) => {
                set_total_deposited(env, pending.undo.total_deposited);
                set_total_fee_collected(env, pending.undo.total_fee_collected);
                set_last_harvest_time(env, pending.undo.last_harvest_time);
                put_back(&mut env.price_snapshots, pending.timestamp, pending.undo.snapshot);
                return Err(e);
            },
        }
        env.publish(
            Event::Harvest {
                caller: pending.caller,
                yield_amount: pending.yield_amount,
                yield_after_fee: pending.yield_after_fee,
                fee_amount: pending.fee_amount,
                total_deposited: pending.total_deposited,
            },
        );
        Ok(())
    }

    /// Starts a harvest of yield that is paid in `alt_token` and worth
    /// `underlying_amount` of the underlying token.
    ///
    /// `balance` is the vault's balance of the underlying token. The admin
    /// must have registered `alt_token`. The yield is credited before any
    /// token moves. An accepted harvest holds the reentrancy lock and asks
    /// for a transfer from the caller; [`AuraVault::finish_harvest_token`]
    /// completes it.
    pub fn harvest_token(
        env: &mut Env,
        caller: Address,
        alt_token: Address,
        yield_amount: i128,
        underlying_amount: i128,
        balance: i128,
    ) -> (r: Result<PendingHarvestToken, VaultError>)
        ensures
            ends_with(
                r,
                harvest_token_error(
                    old(env)@,
                    caller,
                    alt_token,
                    yield_amount,
                    underlying_amount,
                    balance,
                ),
            ),
            match r {
                Ok(p) => {
                    &&& p == harvest_token_pending(
                        old(env)@,
                        caller,
                        alt_token,
                        yield_amount,
                        underlying_amount,
                    )
                    &&& final(env)@ == (Model {
                        locked: true,
                        ..harvest_token_credited(old(env)@, underlying_amount)
                    })
                },
                Err(e) => final(env)@ == refused(old(env)@, e, balance),
            },
    {
        if env.locked {
            return Err(VaultError::Reentrancy);
        }
        let p = match price_harvest_token(
            env,
            caller,
            alt_token,
            yield_amount,
            underlying_amount,
            balance,
        ) {
            Ok(p) => p,
            Err(e) => {
                refuse(env, e, balance);
                return Err(e);
            },
        };
        enter_reentrancy_guard(env)?;
        set_total_deposited(env, p.old_total_deposited + p.net_underlying);
        set_total_fee_collected(env, p.old_fee_collected + p.fee_amount);
        Ok(p)
    }

    /// Completes a harvest of another token once its transfer has been made.
    ///
    /// `balance_before` and `balance_after` are the vault's balances of that
    /// token around the transfer. Unless exactly the yield arrived, the
    /// credit is taken back.
    pub fn finish_harvest_token(
        env: &mut Env,
        pending: PendingHarvestToken,
        balance_before: i128,
        balance_after: i128,
    ) -> (r: Result<(), VaultError>)
        ensures
            ends_with(r, delta_error(balance_after - balance_before, pending.yield_amount)),
            final(env)@ == (if r is Ok {
                harvested_token(old(env)@, pending)
            } else {
                unharvested_token(old(env)@, pending)
            }),
    {
        exit_reentrancy_guard(env);
        match assert_incoming_transfer(balance_before, balance_after, pending.yield_amount) {
            Ok(_) => {},
            Err(e) => {
                set_total_deposited(env, pending.old_total_deposited);
                set_total_fee_collected(env, pending.old_fee_collected);
                return Err(e);
            },
        }
        env.publish(
            Event::HarvestToken {
                caller: pending.caller,
                alt_token: pending.alt_token,
                yield_amount: pending.yield_amount,
                net_underlying: pending.net_underlying,
                fee_amount: pending.fee_amount,
            },
        );
        Ok(())
    }

    /// Accepts `alt_token` as a token in which yield may be paid. The admin
    /// has to authorise the call.
    pub fn register_yield_token(env: &mut Env, alt_token: Address) -> (r: Result<(), VaultError>)
        ensures
            ends_with(r, register_error(old(env)@)),
            final(env)@ == (if r is Ok {
                Model {
                    yield_tokens: old(env)@.yield_tokens.insert(alt_token.id, true),
                    ..old(env)@
                }.publish(Event::YieldTokenRegistered { alt_token })
            } else {
                old(env)@
            }),
    {
        if env.locked {
            return Err(VaultError::Reentrancy);
        }
        let admin = get_admin(env).ok_or(VaultError::NotInitialized)?;
        if !env.has_auth(admin) {
            return Err(VaultError::UpgradeUnauthorized);
        }
        enter_reentrancy_guard(env)?;
        set_yield_token(env, alt_token, true);
        env.publish(Event::YieldTokenRegistered { alt_token });
        exit_reentrancy_guard(env);
        Ok(())
    }

    /// Sets the minimum seconds between harvests; 0 disables the cooldown.
    pub fn set_harvest_cooldown(env: &mut Env, admin: Address, secs: u64) -> (r: Result<
        (),
        VaultError,
    >)
        ensures
            ends_with(r, admin_error(old(env)@, admin)),
            final(env)@ == (if r is Ok {
                Model { harvest_cooldown_secs: secs, ..old(env)@ }
            } else {
                old(env)@
            }),
    {
        enter_as_admin(env, admin)?;
        set_harvest_cooldown_secs(env, secs);
        exit_reentrancy_guard(env);
        Ok(())
    }

    /// Forgets the last harvest, so that the next one need not wait.
    pub fn reset_harvest_cooldown(env: &mut Env, admin: Address) -> (r: Result<(), VaultError>)
        ensures
            ends_with(r, admin_error(old(env)@, admin)),
            final(env)@ == (if r is Ok {
                Model { last_harvest_time: 0, ..old(env)@ }
            } else {
                old(env)@
            }),
    {
        enter_as_admin(env, admin)?;
        set_last_harvest_time(env, 0);
        exit_reentrancy_guard(env);
        Ok(())
    }

    /// The time of the last harvest (0 = never).
    pub fn last_harvest_time(env: &Env) -> (r: u64)
        ensures
            r == env@.last_harvest_time,
    {
        get_last_harvest_time(env)
    }

    /// The end of the running cooldown: harvests are allowed from the second
    /// after it. 0 when a harvest need not wait.
    pub fn next_harvest_allowed_at(env: &Env) -> (r: u64)
        ensures
            r == next_harvest_time(env@),
    {
        if is_cooling_down(env) {
            get_last_harvest_time(env).saturating_add(get_harvest_cooldown_secs(env))
        } else {
            0
        }
    }

    /// Sets the share-price movement in basis points at which a harvest
    /// pauses the vault; 0 disables the check.
    pub fn set_price_movement_limit(env: &mut Env, admin: Address, bps: u32) -> (r: Result<
        (),
        VaultError,
    >)
        ensures
            ends_with(r, admin_error(old(env)@, admin)),
            final(env)@ == (if r is Ok {
                Model { price_movement_limit: bps, ..old(env)@ }
            } else {
                old(env)@
            }),
    {
        enter_as_admin(env, admin)?;
        storage::set_price_movement_limit(env, bps);
        exit_reentrancy_guard(env);
        Ok(())
    }

    /// The share-price movement limit in basis points (0 = disabled).
    pub fn get_price_movement_limit(env: &Env) -> (r: u32)
        ensures
            r == env@.price_movement_limit,
    {
        storage::get_price_movement_limit(env)
    }
}

} // verus!
