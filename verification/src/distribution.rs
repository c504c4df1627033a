use crate::address::Address;
use crate::env::{Env, Model};
use crate::errors::VaultError;
use crate::events::Event;
use crate::fee::{calc_perf_fee, perf_fee_of};
use crate::guard::{ends_with, refuse, refused, require_auth};
use crate::harvest::magnitude;
use crate::math::{
    clamped_difference, fits, minus, mul_div, mul_div_of, plus, quotient, saturating_minus,
};
use crate::oracle::{oracle_price_error, validate_oracle_price, ORACLE_DEFAULT_MAX_AGE_SECS};
use crate::storage::{
    enter_reentrancy_guard, exit_reentrancy_guard, get_admin, get_balance, get_cumulative_yps,
    get_distribution_epoch, get_perf_fee_bps, get_token, get_total_deposited,
    get_total_fee_collected, get_total_shares, get_user_checkpoint, get_user_pending_yield,
    is_paused, is_yield_token, set_cumulative_yps, set_distribution_epoch, set_reentrancy_lock,
    set_total_deposited, set_total_fee_collected, set_user_checkpoint, set_user_pending_yield,
};
use crate::transfer::{assert_incoming_transfer, assert_outgoing_transfer, delta_error, Transfer};
use crate::vault::AuraVault;
use crate::undo::{entry_of, put_back, with_entry};
use vstd::arithmetic::div_mod::lemma_fundamental_div_mod;
use vstd::prelude::*;

verus! {

/// Scale of the yield-per-share accumulator.
pub const YIELD_PRECISION: i128 = 1_000_000_000_000;

/// What a distribution overwrites, kept so that it can be undone.
#[derive(Clone, Copy, Debug, PartialEq, Eq, Structural)]
pub struct DistributionUndo {
    pub cumulative_yps: i128,
    pub total_deposited: i128,
    pub total_fee_collected: i128,
    pub epoch: u64,
}

/// What a collection overwrites, kept so that it can be undone.
#[derive(Clone, Copy, Debug, PartialEq, Eq, Structural)]
pub struct CollectionUndo {
    pub checkpoint: Option<i128>,
    pub stored_yield: Option<i128>,
    pub total_deposited: i128,
}

/// A distribution that is credited and whose yield is still to be pulled from
/// the keeper.
#[derive(Debug)]
pub struct PendingDistribution {
    /// The transfer that completes the distribution.
    pub transfer: Transfer,
    pub caller: Address,
    /// The token of the yield, where it is not the underlying token.
    pub alt_token: Option<Address>,
    pub yield_amount: i128,
    pub net_yield: i128,
    pub fee_amount: i128,
    /// Shares outstanding, among which the yield is spread.
    pub total_shares: i128,
    /// Yield per share, scaled by `YIELD_PRECISION`.
    pub delta_yps: i128,
    /// Assets tracked after the distribution.
    pub total_deposited: i128,
    /// Fees collected after the distribution.
    pub total_fee_collected: i128,
    /// Cumulative yield per share after the distribution.
    pub cumulative_yps: i128,
    /// Distributions so far, this one among them.
    pub epoch: u64,
    pub undo: DistributionUndo,
}

/// A collection that is settled and whose tokens are still to be sent to the
/// shareholder.
#[derive(Debug)]
pub struct PendingCollection {
    /// The transfer that completes the collection.
    pub transfer: Transfer,
    pub caller: Address,
    /// Tokens that the caller will receive.
    pub amount: i128,
    /// The yield per share up to which the caller is paid.
    pub cumulative_yps: i128,
    /// Assets tracked after the collection.
    pub total_deposited: i128,
    pub undo: CollectionUndo,
}

/// What comes of an accepted call of [`AuraVault::collect_pending_yield`].
#[derive(Debug)]
pub enum Collection {
    /// There is nothing to pay.
    Nothing,
    /// The yield is to be sent.
    Payment(PendingCollection),
}

/// Yield per share when `net` is spread among `total_shares`, rounded down.
pub open spec fn yield_per_share(net: i128, total_shares: i128) -> Option<i128> {
    mul_div_of(net as int, YIELD_PRECISION as int, total_shares as int)
}

/// Tokens that `total_shares` together receive at `yps` per share.
pub open spec fn distributed_at(yps: i128, total_shares: i128) -> Option<i128> {
    mul_div_of(yps as int, total_shares as int, YIELD_PRECISION as int)
}

/// The rounding error that a distribution of `net` may have: a ten-thousandth
/// of it, rounded up.
pub open spec fn tolerance(net: i128) -> int {
    quotient(net + 9_999, 10_000)
}

/// Whether the tokens that shareholders receive are close enough to `net`.
pub open spec fn accurate(net: i128, distributed: i128) -> bool {
    magnitude(distributed - net) <= tolerance(net)
}

/// Why `net` cannot be spread among `total_shares`.
pub open spec fn spread_error(net: i128, total_shares: i128) -> Option<VaultError> {
    let yps = yield_per_share(net, total_shares);
    let distributed = distributed_at(yps->0, total_shares);
    if yps is None {
        Some(VaultError::MathOverflow)
    } else if yps->0 == 0 {
        Some(VaultError::YieldTooSmall)
    } else if distributed is None || !fits(net + 9_999) {
        Some(VaultError::MathOverflow)
    } else if !accurate(net, distributed->0) {
        Some(VaultError::DistributionAccuracyError)
    } else {
        None
    }
}

/// The fee on a distribution of `amount`.
pub open spec fn distribution_fee(m: Model, amount: i128) -> Option<i128> {
    perf_fee_of(amount, m.perf_fee_bps)
}

/// What a distribution of `amount` leaves after its fee.
pub open spec fn net_of_fee(m: Model, amount: i128) -> i128 {
    (amount - distribution_fee(m, amount)->0) as i128
}

/// Whether the fee on `amount` can be computed and taken off.
pub open spec fn fee_computable(m: Model, amount: i128) -> bool {
    distribution_fee(m, amount) is Some && fits(amount - distribution_fee(m, amount)->0)
}

/// Whether a distribution worth `value` can be credited without overflow.
pub open spec fn creditable(m: Model, value: i128) -> bool {
    let net = net_of_fee(m, value);
    &&& fits(m.cumulative_yps + yield_per_share(net, m.total_shares)->0)
    &&& fits(m.total_deposited + net)
    &&& fits(m.total_fee_collected + distribution_fee(m, value)->0)
}

/// Why a distribution worth `value` cannot be spread or credited.
pub open spec fn credit_error(m: Model, value: i128) -> Option<VaultError> {
    let error = spread_error(net_of_fee(m, value), m.total_shares);
    if error is Some {
        error
    } else if !creditable(m, value) {
        Some(VaultError::MathOverflow)
    } else {
        None
    }
}

/// Why a distribution is refused.
pub open spec fn distribute_yield_error(
    m: Model,
    caller: Address,
    yield_amount: i128,
    balance: i128,
) -> Option<VaultError> {
    if m.locked {
        Some(VaultError::Reentrancy)
    } else if !m.has_auth(caller) {
        Some(VaultError::NotAuthorized)
    } else if yield_amount <= 0 {
        Some(VaultError::ZeroAmount)
    } else if m.admin is None {
        Some(VaultError::NotInitialized)
    } else if m.paused {
        Some(VaultError::VaultPaused)
    } else if m.total_shares == 0 {
        Some(VaultError::ZeroShares)
    } else if m.token is None {
        Some(VaultError::NotInitialized)
    } else if balance != m.total_deposited {
        Some(VaultError::BalanceMismatch)
    } else if !fee_computable(m, yield_amount) {
        Some(VaultError::MathOverflow)
    } else {
        credit_error(m, yield_amount)
    }
}

/// Why a distribution of another token is refused.
pub open spec fn distribute_yield_token_error(
    m: Model,
    caller: Address,
    alt_token: Address,
    yield_amount: i128,
    underlying_amount: i128,
    balance: i128,
) -> Option<VaultError> {
    let price_error = oracle_price_error(
        m.timestamp,
        underlying_amount,
        m.timestamp,
        ORACLE_DEFAULT_MAX_AGE_SECS,
    );
    if m.locked {
        Some(VaultError::Reentrancy)
    } else if !m.has_auth(caller) {
        Some(VaultError::NotAuthorized)
    } else if yield_amount <= 0 || underlying_amount <= 0 {
        Some(VaultError::ZeroAmount)
    } else if m.admin is None {
        Some(VaultError::NotInitialized)
    } else if m.paused {
        Some(VaultError::VaultPaused)
    } else if !m.accepts_yield_token(alt_token) {
        Some(VaultError::InvalidAddress)
    } else if m.total_shares == 0 {
        Some(VaultError::ZeroShares)
    } else if m.token is None {
        Some(VaultError::NotInitialized)
    } else if balance != m.total_deposited {
        Some(VaultError::BalanceMismatch)
    } else if !fee_computable(m, underlying_amount) {
        Some(VaultError::MathOverflow)
    } else if price_error is Some {
        price_error
    } else {
        credit_error(m, underlying_amount)
    }
}

/// The distribution that an accepted call leaves to be completed. The yield
/// is worth `value` of the underlying token.
pub open spec fn distribution_pending(
    m: Model,
    caller: Address,
    alt_token: Option<Address>,
    yield_amount: i128,
    value: i128,
) -> PendingDistribution {
    let token = match alt_token {
        Some(alt) => alt,
        None => m.token->0,
    };
    PendingDistribution {
        transfer: Transfer::Pull { token, from: caller, amount: yield_amount },
        caller,
        alt_token,
        yield_amount,
        net_yield: net_of_fee(m, value),
        fee_amount: distribution_fee(m, value)->0,
        total_shares: m.total_shares,
        delta_yps: yield_per_share(net_of_fee(m, value), m.total_shares)->0,
        total_deposited: distribution_credited(m, value).total_deposited,
        total_fee_collected: distribution_credited(m, value).total_fee_collected,
        cumulative_yps: distribution_credited(m, value).cumulative_yps,
        epoch: distribution_credited(m, value).distribution_epoch,
        undo: DistributionUndo {
            cumulative_yps: m.cumulative_yps,
            total_deposited: m.total_deposited,
            total_fee_collected: m.total_fee_collected,
            epoch: m.distribution_epoch,
        },
    }
}

/// The vault with a distribution worth `value` credited.
pub open spec fn distribution_credited(m: Model, value: i128) -> Model {
    let net = net_of_fee(m, value);
    Model {
        cumulative_yps: (m.cumulative_yps + yield_per_share(net, m.total_shares)->0) as i128,
        total_deposited: (m.total_deposited + net) as i128,
        total_fee_collected: (m.total_fee_collected + distribution_fee(m, value)->0) as i128,
        distribution_epoch: (m.distribution_epoch + 1) as u64,
        ..m
    }
}

/// The event of a completed distribution.
pub open spec fn distribution_event(p: PendingDistribution) -> Event {
    match p.alt_token {
        Some(alt_token) => Event::YieldDistributedToken {
            caller: p.caller,
            alt_token,
            yield_amount: p.yield_amount,
            net_underlying: p.net_yield,
            fee_amount: p.fee_amount,
            total_shares: p.total_shares,
            cumulative_yps: p.cumulative_yps,
            epoch: p.epoch,
        },
        None => Event::YieldDistributed {
            caller: p.caller,
            yield_amount: p.yield_amount,
            net_yield: p.net_yield,
            fee_amount: p.fee_amount,
            total_shares: p.total_shares,
            cumulative_yps: p.cumulative_yps,
            epoch: p.epoch,
        },
    }
}

/// The vault after a completed distribution.
pub open spec fn distributed(m: Model, p: PendingDistribution) -> Model {
    Model { locked: false, ..m }.publish(distribution_event(p))
}

/// The vault with the credit of a distribution taken back.
pub open spec fn undistributed(m: Model, p: PendingDistribution) -> Model {
    Model {
        locked: false,
        cumulative_yps: p.undo.cumulative_yps,
        total_deposited: p.undo.total_deposited,
        total_fee_collected: p.undo.total_fee_collected,
        distribution_epoch: p.undo.epoch,
        ..m
    }
}

/// Why a preview is refused.
pub open spec fn preview_error(m: Model, yield_amount: i128) -> Option<VaultError> {
    let net = net_of_fee(m, yield_amount);
    let yps = yield_per_share(net, m.total_shares);
    if yield_amount <= 0 {
        Some(VaultError::ZeroAmount)
    } else if m.admin is None {
        Some(VaultError::NotInitialized)
    } else if m.total_shares == 0 {
        Some(VaultError::ZeroShares)
    } else if !fee_computable(m, yield_amount) || yps is None {
        Some(VaultError::MathOverflow)
    } else if yps->0 != 0 && (distributed_at(yps->0, m.total_shares) is None || !fits(
        net + 9_999,
    )) {
        Some(VaultError::MathOverflow)
    } else {
        None
    }
}

/// What a distribution of `yield_amount` would do: the yield after its fee,
/// the yield per share, the tokens that shareholders would receive, and
/// whether that is accurate enough. All but the first are nothing where the
/// yield is too small to spread.
pub open spec fn preview_of(m: Model, yield_amount: i128) -> (i128, i128, i128, bool) {
    let net = net_of_fee(m, yield_amount);
    let yps = yield_per_share(net, m.total_shares)->0;
    let distributed = distributed_at(yps, m.total_shares)->0;
    if yps == 0 {
        (net, 0, 0, false)
    } else {
        (net, yps, distributed, accurate(net, distributed))
    }
}

/// The yield that `addr` has earned since its checkpoint, rounded down.
pub open spec fn accrued(m: Model, addr: Address) -> Option<i128> {
    mul_div_of(
        m.balance(addr) as int,
        m.cumulative_yps - m.checkpoint(addr),
        YIELD_PRECISION as int,
    )
}

/// Everything that `addr` can collect.
pub open spec fn claimable(m: Model, addr: Address) -> int {
    m.stored_yield(addr) + accrued(m, addr)->0
}

/// Why a collection is refused.
pub open spec fn collect_error(m: Model, caller: Address) -> Option<VaultError> {
    if m.locked {
        Some(VaultError::Reentrancy)
    } else if !m.has_auth(caller) {
        Some(VaultError::NotAuthorized)
    } else if m.admin is None {
        Some(VaultError::NotInitialized)
    } else if m.paused {
        Some(VaultError::VaultPaused)
    } else if !fits(m.cumulative_yps - m.checkpoint(caller)) || accrued(m, caller) is None || !fits(
        claimable(m, caller),
    ) {
        Some(VaultError::MathOverflow)
    } else if claimable(m, caller) > 0 && m.token is None {
        Some(VaultError::NotInitialized)
    } else if claimable(m, caller) > 0 && !fits(m.total_deposited - claimable(m, caller)) {
        Some(VaultError::MathOverflow)
    } else {
        None
    }
}

/// The vault with the yield of `caller` settled up to now. What there is to
/// pay is no longer tracked.
pub open spec fn settled(m: Model, caller: Address) -> Model {
    Model {
        user_checkpoints: m.user_checkpoints.insert(caller.id, m.cumulative_yps),
        user_pending_yields: m.user_pending_yields.insert(caller.id, 0),
        total_deposited: if claimable(m, caller) > 0 {
            (m.total_deposited - claimable(m, caller)) as i128
        } else {
            m.total_deposited
        },
        ..m
    }
}

/// The collection that an accepted call leaves to be completed.
pub open spec fn collection_pending(m: Model, caller: Address) -> PendingCollection {
    let amount = claimable(m, caller) as i128;
    PendingCollection {
        transfer: Transfer::Push { token: m.token->0, to: caller, amount },
        caller,
        amount,
        cumulative_yps: m.cumulative_yps,
        total_deposited: settled(m, caller).total_deposited,
        undo: CollectionUndo {
            checkpoint: entry_of(m.user_checkpoints, caller.id),
            stored_yield: entry_of(m.user_pending_yields, caller.id),
            total_deposited: m.total_deposited,
        },
    }
}

/// The vault after a completed collection.
pub open spec fn collected(m: Model, p: PendingCollection) -> Model {
    Model { locked: false, ..m }.publish(
        Event::YieldCollected {
            caller: p.caller,
            amount: p.amount,
            cumulative_yps: p.cumulative_yps,
            total_deposited: p.total_deposited,
        },
    )
}

/// The vault with the yield of a collection put back.
pub open spec fn uncollected(m: Model, p: PendingCollection) -> Model {
    Model {
        locked: false,
        user_checkpoints: with_entry(m.user_checkpoints, p.caller.id, p.undo.checkpoint),
        user_pending_yields: with_entry(m.user_pending_yields, p.caller.id, p.undo.stored_yield),
        total_deposited: p.undo.total_deposited,
        ..m
    }
}

/// The yield that `addr` is shown as collectable. Arithmetic that overflows
/// counts as nothing.
pub open spec fn pending_yield_of(m: Model, addr: Address) -> i128 {
    let earned = mul_div_of(
        m.balance(addr) as int,
        clamped_difference(m.cumulative_yps as int, m.checkpoint(addr) as int),
        YIELD_PRECISION as int,
    );
    let accrued = match earned {
        Some(x) => x,
        None => 0,
    };
    if fits(m.stored_yield(addr) + accrued) {
        (m.stored_yield(addr) + accrued) as i128
    } else {
        0
    }
}

/// Rounding never makes a quotient times its divisor larger than the number
/// that was divided.
proof fn lemma_quotient_times_divisor(a: int, b: int)
    requires
        b != 0,
    ensures
        a >= 0 ==> 0 <= quotient(a, b) * b <= a,
        a < 0 ==> a <= quotient(a, b) * b <= 0,
{
    let x = if a >= 0 { a } else { -a };
    let d = if b > 0 { b } else { -b };
    let q = x / d;
    lemma_fundamental_div_mod(x, d);
    assert(d * q == q * d) by (nonlinear_arith);
    assert(0 <= q * d <= x);
    assert((-q) * (-d) == q * d) by (nonlinear_arith);
    assert((-q) * d == -(q * d)) by (nonlinear_arith);
    assert(q * (-d) == -(q * d)) by (nonlinear_arith);
    if a == 0 {
        assert(q == 0) by (nonlinear_arith)
            requires
                0 <= q * d <= 0,
                d > 0,
        ;
    }
}

/// Dividing by a positive scale what lies between zero and a multiple of it
/// stays between zero and the factor.
proof fn lemma_quotient_within(a: int, n: int, p: int)
    requires
        p > 0,
        n >= 0 ==> 0 <= a <= n * p,
        n < 0 ==> n * p <= a <= 0,
    ensures
        n >= 0 ==> 0 <= quotient(a, p) <= n,
        n < 0 ==> n <= quotient(a, p) <= 0,
{
    let x = if a >= 0 { a } else { -a };
    let k = if n >= 0 { n } else { -n };
    assert((-n) * p == -(n * p)) by (nonlinear_arith);
    assert(0 <= x <= k * p);
    assert(0 <= x / p <= k) by (nonlinear_arith)
        requires
            0 <= x <= k * p,
            p > 0,
    ;
}

/// Shareholders never receive more than is distributed.
pub proof fn law_distribution_within_net(net: i128, total_shares: i128)
    requires
        yield_per_share(net, total_shares) is Some,
        distributed_at(yield_per_share(net, total_shares)->0, total_shares) is Some,
    ensures
        ({
            let yps = yield_per_share(net, total_shares)->0;
            let distributed = distributed_at(yps, total_shares)->0;
            &&& net >= 0 ==> 0 <= distributed <= net
            &&& net < 0 ==> net <= distributed <= 0
        }),
{
    let scaled = net * YIELD_PRECISION;
    let yps = quotient(scaled, total_shares as int);
    assert(net >= 0 ==> scaled >= 0) by (nonlinear_arith)
        requires
            scaled == net * 1_000_000_000_000,
    ;
    assert(net < 0 ==> scaled < 0) by (nonlinear_arith)
        requires
            scaled == net * 1_000_000_000_000,
    ;
    lemma_quotient_times_divisor(scaled, total_shares as int);
    lemma_quotient_within(yps * total_shares, net as int, YIELD_PRECISION as int);
}

/// How `net` is spread among `total_shares`: the yield per share, the tokens
/// that shareholders receive, and whether that is accurate enough.
fn spread(net: i128, total_shares: i128) -> (r: Result<(i128, i128, bool), VaultError>)
    ensures
        match r {
            Ok((yps, distributed, ok)) => {
                &&& yield_per_share(net, total_shares) == Some(yps)
                &&& yps == 0 ==> distributed == 0 && !ok
                &&& yps != 0 ==> {
                    &&& distributed_at(yps, total_shares) == Some(distributed)
                    &&& fits(net + 9_999)
                    &&& ok == accurate(net, distributed)
                }
            },
            Err(e) => {
                &&& e == VaultError::MathOverflow
                &&& yield_per_share(net, total_shares) is Some ==> {
                    let yps = yield_per_share(net, total_shares)->0;
                    &&& yps != 0
                    &&& distributed_at(yps, total_shares) is None || !fits(net + 9_999)
                }
            },
        },
{
    let yps: i128 = mul_div(net, YIELD_PRECISION, total_shares)?;
    if yps == 0 {
        return Ok((0, 0, false));
    }
    let distributed: i128 = mul_div(yps, total_shares, YIELD_PRECISION)?;
    let tolerance: i128 = plus(net, 9_999)?.checked_div(10_000).ok_or(VaultError::MathOverflow)?;
    proof {
        law_distribution_within_net(net, total_shares);
    }
    let diff: i128 = distributed - net;
    let error: i128 = if diff < 0 {
        -diff
    } else {
        diff
    };
    Ok((yps, distributed, error <= tolerance))
}

/// The yield per share when `net` is spread among `total_shares`, unless that
/// is too small or too inaccurate.
fn spread_strictly(net: i128, total_shares: i128) -> (r: Result<i128, VaultError>)
    ensures
        ends_with(r, spread_error(net, total_shares)),
        r is Ok ==> yield_per_share(net, total_shares) == Some(r->Ok_0),
{
    let (yps, _distributed, accuracy_ok) = spread(net, total_shares)?;
    if yps == 0 {
        return Err(VaultError::YieldTooSmall);
    }
    if !accuracy_ok {
        return Err(VaultError::DistributionAccuracyError);
    }
    Ok(yps)
}

/// The fee on `amount` and what it leaves.
fn take_fee(env: &Env, amount: i128) -> (r: Result<(i128, i128), VaultError>)
    ensures
        ends_with(
            r,
            if fee_computable(env@, amount) {
                None
            } else {
                Some(VaultError::MathOverflow)
            },
        ),
        r is Ok ==> r->Ok_0 == (distribution_fee(env@, amount)->0, net_of_fee(env@, amount)),
{
    let fee_amount: i128 = calc_perf_fee(amount, get_perf_fee_bps(env))?;
    let net: i128 = minus(amount, fee_amount)?;
    Ok((fee_amount, net))
}

/// Records what a distribution overwrites.
fn record_distribution_undo(env: &Env) -> (undo: DistributionUndo)
    ensures
        undo == (DistributionUndo {
            cumulative_yps: env@.cumulative_yps,
            total_deposited: env@.total_deposited,
            total_fee_collected: env@.total_fee_collected,
            epoch: env@.distribution_epoch,
        }),
{
    DistributionUndo {
        cumulative_yps: get_cumulative_yps(env),
        total_deposited: get_total_deposited(env),
        total_fee_collected: get_total_fee_collected(env),
        epoch: get_distribution_epoch(env),
    }
}

/// Credits a distribution and takes the lock.
fn credit(env: &mut Env, p: &PendingDistribution)
    ensures
        final(env)@ == (Model {
            locked: true,
            cumulative_yps: p.cumulative_yps,
            total_deposited: p.total_deposited,
            total_fee_collected: p.total_fee_collected,
            distribution_epoch: p.epoch,
            ..old(env)@
        }),
{
    set_reentrancy_lock(env, true);
    set_cumulative_yps(env, p.cumulative_yps);
    set_total_deposited(env, p.total_deposited);
    set_total_fee_collected(env, p.total_fee_collected);
    set_distribution_epoch(env, p.epoch);
}

/// Checks a distribution and computes the yield per share.
fn price_distribution(env: &Env, caller: Address, yield_amount: i128, balance: i128) -> (r: Result<
    PendingDistribution,
    VaultError,
>)
    requires
        !env@.locked,
        distribute_yield_error(env@, caller, yield_amount, balance) is None
            ==> env@.distribution_epoch < u64::MAX,
    ensures
        ends_with(r, distribute_yield_error(env@, caller, yield_amount, balance)),
        r is Ok ==> r->Ok_0 == distribution_pending(
            env@,
            caller,
            None,
            yield_amount,
            yield_amount,
        ),
{
    require_auth(env, caller)?;
    if yield_amount <= 0 {
        return Err(VaultError::ZeroAmount);
    }
    if get_admin(env).is_none() {
        return Err(VaultError::NotInitialized);
    }
    if is_paused(env) {
        return Err(VaultError::VaultPaused);
    }
    let total_shares: i128 = get_total_shares(env);
    if total_shares == 0 {
        return Err(VaultError::ZeroShares);
    }
    let token = get_token(env).ok_or(VaultError::NotInitialized)?;
    let total_deposited: i128 = get_total_deposited(env);
    if balance != total_deposited {
        return Err(VaultError::BalanceMismatch);
    }
    let (fee_amount, net_yield) = take_fee(env, yield_amount)?;
    let delta_yps: i128 = spread_strictly(net_yield, total_shares)?;
    let cumulative_yps: i128 = plus(get_cumulative_yps(env), delta_yps)?;
    let new_total: i128 = plus(total_deposited, net_yield)?;
    let new_fees: i128 = plus(get_total_fee_collected(env), fee_amount)?;
    Ok(
        PendingDistribution {
            transfer: Transfer::Pull { token, from: caller, amount: yield_amount },
            caller,
            alt_token: None,
            yield_amount,
            net_yield,
            fee_amount,
            total_shares,
            delta_yps,
            total_deposited: new_total,
            total_fee_collected: new_fees,
            cumulative_yps,
            epoch: get_distribution_epoch(env) + 1,
            undo: record_distribution_undo(env),
        },
    )
}

/// Checks a distribution of another token and computes the yield per share.
fn price_distribution_token(
    env: &Env,
    caller: Address,
    alt_token: Address,
    yield_amount: i128,
    underlying_amount: i128,
    balance: i128,
) -> (r: Result<PendingDistribution, VaultError>)
    requires
        !env@.locked,
        distribute_yield_token_error(
            env@,
            caller,
            alt_token,
            yield_amount,
            underlying_amount,
            balance,
        ) is None ==> env@.distribution_epoch < u64::MAX,
    ensures
        ends_with(
            r,
            distribute_yield_token_error(
                env@,
                caller,
                alt_token,
                yield_amount,
                underlying_amount,
                balance,
            ),
        ),
        r is Ok ==> r->Ok_0 == distribution_pending(
            env@,
            caller,
            Some(alt_token),
            yield_amount,
            underlying_amount,
        ),
{
    require_auth(env, caller)?;
    if yield_amount <= 0 || underlying_amount <= 0 {
        return Err(VaultError::ZeroAmount);
    }
    if get_admin(env).is_none() {
        return Err(VaultError::NotInitialized);
    }
    if is_paused(env) {
        return Err(VaultError::VaultPaused);
    }
    if !is_yield_token(env, alt_token) {
        return Err(VaultError::InvalidAddress);
    }
    let total_shares: i128 = get_total_shares(env);
    if total_shares == 0 {
        return Err(VaultError::ZeroShares);
    }
    if get_token(env).is_none() {
        return Err(VaultError::NotInitialized);
    }
    let total_deposited: i128 = get_total_deposited(env);
    if balance != total_deposited {
        return Err(VaultError::BalanceMismatch);
    }
    let (fee_amount, net_underlying) = take_fee(env, underlying_amount)?;
    validate_oracle_price(
        env.timestamp,
        underlying_amount,
        env.timestamp,
        ORACLE_DEFAULT_MAX_AGE_SECS,
    )?;
    let delta_yps: i128 = spread_strictly(net_underlying, total_shares)?;
    let cumulative_yps: i128 = plus(get_cumulative_yps(env), delta_yps)?;
    let new_total: i128 = plus(total_deposited, net_underlying)?;
    let new_fees: i128 = plus(get_total_fee_collected(env), fee_amount)?;
    Ok(
        PendingDistribution {
            transfer: Transfer::Pull { token: alt_token, from: caller, amount: yield_amount },
            caller,
            alt_token: Some(alt_token),
            yield_amount,
            net_yield: net_underlying,
            fee_amount,
            total_shares,
            delta_yps,
            total_deposited: new_total,
            total_fee_collected: new_fees,
            cumulative_yps,
            epoch: get_distribution_epoch(env) + 1,
            undo: record_distribution_undo(env),
        },
    )
}

/// Checks a collection and computes what is to be paid.
fn price_collection(env: &Env, caller: Address) -> (r: Result<i128, VaultError>)
    requires
        !env@.locked,
    ensures
        ends_with(r, collect_error(env@, caller)),
        r is Ok ==> r->Ok_0 == claimable(env@, caller),
{
    require_auth(env, caller)?;
    if get_admin(env).is_none() {
        return Err(VaultError::NotInitialized);
    }
    if is_paused(env) {
        return Err(VaultError::VaultPaused);
    }
    let user_shares: i128 = get_balance(env, caller);
    let delta_yps: i128 = minus(get_cumulative_yps(env), get_user_checkpoint(env, caller))?;
    let accrued: i128 = mul_div(user_shares, delta_yps, YIELD_PRECISION)?;
    let total_claimable: i128 = plus(get_user_pending_yield(env, caller), accrued)?;
    if total_claimable > 0 {
        if get_token(env).is_none() {
            return Err(VaultError::NotInitialized);
        }
        minus(get_total_deposited(env), total_claimable)?;
    }
    Ok(total_claimable)
}

impl AuraVault {
    /// Starts the distribution of `yield_amount` underlying tokens among the
    /// shareholders, who collect their parts later.
    ///
    /// `balance` is the vault's balance of the underlying token. Any keeper
    /// may distribute. The yield is credited before any token moves. An
    /// accepted distribution holds the reentrancy lock and asks for a
    /// transfer from the caller; [`AuraVault::finish_distribution`] completes
    /// it.
    pub fn distribute_yield(
        env: &mut Env,
        caller: Address,
        yield_amount: i128,
        balance: i128,
    ) -> (r: Result<PendingDistribution, VaultError>)
        requires
            distribute_yield_error(old(env)@, caller, yield_amount, balance) is None ==> old(
                env,
            )@.distribution_epoch < u64::MAX,
        ensures
            ends_with(r, distribute_yield_error(old(env)@, caller, yield_amount, balance)),
            match r {
                Ok(p) => {
                    &&& p == distribution_pending(
                        old(env)@,
                        caller,
                        None,
                        yield_amount,
                        yield_amount,
                    )
                    &&& final(env)@ == (Model {
                        locked: true,
                        ..distribution_credited(old(env)@, yield_amount)
                    })
                },
                Err(e) => final(env)@ == refused(old(env)@, e, balance),
            },
    {
        if env.locked {
            return Err(VaultError::Reentrancy);
        }
        match price_distribution(env, caller, yield_amount, balance) {
            Ok(p) => {
                credit(env, &p);
                Ok(p)
            },
            Err(e) => {
                refuse(env, e, balance);
                Err(e)
            },
        }
    }

    /// Starts the distribution of yield that is paid in `alt_token` and worth
    /// `underlying_amount` of the underlying token.
    ///
    /// `balance` is the vault's balance of the underlying token. The admin
    /// must have registered `alt_token`. The yield is credited before any
    /// token moves. [`AuraVault::finish_distribution`] completes an accepted
    /// distribution.
    pub fn distribute_yield_token(
        env: &mut Env,
        caller: Address,
        alt_token: Address,
        yield_amount: i128,
        underlying_amount: i128,
        balance: i128,
    ) -> (r: Result<PendingDistribution, VaultError>)
        requires
            distribute_yield_token_error(
                old(env)@,
                caller,
                alt_token,
                yield_amount,
                underlying_amount,
                balance,
            ) is None ==> old(env)@.distribution_epoch < u64::MAX,
        ensures
            ends_with(
                r,
                distribute_yield_token_error(
                    old(env)@,
                    caller,
                    alt_token,
                    yield_amount,
                    underlying_amount,
                    balance,
                ),
            ),
            match r {
                Ok(p) => {
                    &&& p == distribution_pending(
                        old(env)@,
                        caller,
                        Some(alt_token),
                        yield_amount,
                        underlying_amount,
                    )
                    &&& final(env)@ == (Model {
                        locked: true,
                        ..distribution_credited(old(env)@, underlying_amount)
                    })
                },
                Err(e) => final(env)@ == refused(old(env)@, e, balance),
            },
    {
        if env.locked {
            return Err(VaultError::Reentrancy);
        }
        match price_distribution_token(
            env,
            caller,
            alt_token,
            yield_amount,
            underlying_amount,
            balance,
        ) {
            Ok(p) => {
                credit(env, &p);
                Ok(p)
            },
            Err(e) => {
                refuse(env, e, balance);
                Err(e)
            },
        }
    }

    /// Completes a distribution once its transfer has been made.
    ///
    /// `balance_before` and `balance_after` are the vault's balances of the
    /// yield's token around the transfer. Unless exactly the yield arrived,
    /// the credit is taken back.
    pub fn finish_distribution(
        env: &mut Env,
        pending: PendingDistribution,
        balance_before: i128,
        balance_after: i128,
    ) -> (r: Result<(), VaultError>)
        ensures
            ends_with(r, delta_error(balance_after - balance_before, pending.yield_amount)),
            final(env)@ == (if r is Ok {
                distributed(old(env)@, pending)
            } else {
                undistributed(old(env)@, pending)
            }),
    {
        exit_reentrancy_guard(env);
        match assert_incoming_transfer(balance_before, balance_after, pending.yield_amount) {
            Ok(_) => {},
            Err(e) => {
                set_cumulative_yps(env, pending.undo.cumulative_yps);
                set_total_deposited(env, pending.undo.total_deposited);
                set_total_fee_collected(env, pending.undo.total_fee_collected);
                set_distribution_epoch(env, pending.undo.epoch);
                return Err(e);
            },
        }
        let event = match pending.alt_token {
            Some(alt_token) => Event::YieldDistributedToken {
                caller: pending.caller,
                alt_token,
                yield_amount: pending.yield_amount,
                net_underlying: pending.net_yield,
                fee_amount: pending.fee_amount,
                total_shares: pending.total_shares,
                cumulative_yps: pending.cumulative_yps,
                epoch: pending.epoch,
            },
            None => Event::YieldDistributed {
                caller: pending.caller,
                yield_amount: pending.yield_amount,
                net_yield: pending.net_yield,
                fee_amount: pending.fee_amount,
                total_shares: pending.total_shares,
                cumulative_yps: pending.cumulative_yps,
                epoch: pending.epoch,
            },
        };
        env.publish(event);
        Ok(())
    }

    /// Pulls yield from a keeper or a strategy into the vault: the same as
    /// [`AuraVault::distribute_yield`].
    pub fn collect_yield(env: &mut Env, caller: Address, amount: i128, balance: i128) -> (r: Result<
        PendingDistribution,
        VaultError,
    >)
        requires
            distribute_yield_error(old(env)@, caller, amount, balance) is None ==> old(
                env,
            )@.distribution_epoch < u64::MAX,
        ensures
            ends_with(r, distribute_yield_error(old(env)@, caller, amount, balance)),
            match r {
                Ok(p) => {
                    &&& p == distribution_pending(old(env)@, caller, None, amount, amount)
                    &&& final(env)@ == (Model {
                        locked: true,
                        ..distribution_credited(old(env)@, amount)
                    })
                },
                Err(e) => final(env)@ == refused(old(env)@, e, balance),
            },
    {
        Self::distribute_yield(env, caller, amount, balance)
    }

    /// What a distribution of `yield_amount` would do: the yield after its
    /// fee, the yield per share, the tokens that shareholders would receive,
    /// and whether that is accurate enough.
    pub fn preview_distribution(env: &Env, yield_amount: i128) -> (r: Result<
        (i128, i128, i128, bool),
        VaultError,
    >)
        ensures
            ends_with(r, preview_error(env@, yield_amount)),
            r is Ok ==> r->Ok_0 == preview_of(env@, yield_amount),
    {
        if yield_amount <= 0 {
            return Err(VaultError::ZeroAmount);
        }
        if get_admin(env).is_none() {
            return Err(VaultError::NotInitialized);
        }
        let total_shares: i128 = get_total_shares(env);
        if total_shares == 0 {
            return Err(VaultError::ZeroShares);
        }
        let (_fee_amount, net_yield) = take_fee(env, yield_amount)?;
        let (delta_yps, distributed, accuracy_ok) = spread(net_yield, total_shares)?;
        Ok((net_yield, delta_yps, distributed, accuracy_ok))
    }

    /// Starts the collection of the yield that `caller` has earned.
    ///
    /// The caller's yield is settled before any token moves. Where there is
    /// nothing to pay, the call is complete. Otherwise it holds the
    /// reentrancy lock and asks for a transfer to the caller;
    /// [`AuraVault::finish_collection`] completes it.
    pub fn collect_pending_yield(env: &mut Env, caller: Address) -> (r: Result<
        Collection,
        VaultError,
    >)
        ensures
            ends_with(r, collect_error(old(env)@, caller)),
            match r {
                Ok(Collection::Nothing) => {
                    &&& claimable(old(env)@, caller) <= 0
                    &&& final(env)@ == settled(old(env)@, caller)
                },
                Ok(Collection::Payment(p)) => {
                    &&& claimable(old(env)@, caller) > 0
                    &&& p == collection_pending(old(env)@, caller)
                    &&& final(env)@ == (Model { locked: true, ..settled(old(env)@, caller) })
                },
                Err(_) => final(env)@ == old(env)@,
            },
    {
        if env.locked {
            return Err(VaultError::Reentrancy);
        }
        let amount: i128 = price_collection(env, caller)?;
        let undo = CollectionUndo {
            checkpoint: env.user_checkpoints.get(caller.id),
            stored_yield: env.user_pending_yields.get(caller.id),
            total_deposited: get_total_deposited(env),
        };
        let cumulative_yps: i128 = get_cumulative_yps(env);
        set_user_checkpoint(env, caller, cumulative_yps);
        set_user_pending_yield(env, caller, 0);
        if amount <= 0 {
            return Ok(Collection::Nothing);
        }
        let token = get_token(env).ok_or(VaultError::NotInitialized)?;
        enter_reentrancy_guard(env)?;
        let total_deposited: i128 = get_total_deposited(env) - amount;
        set_total_deposited(env, total_deposited);
        Ok(
            Collection::Payment(
                PendingCollection {
                    transfer: Transfer::Push { token, to: caller, amount },
                    caller,
                    amount,
                    cumulative_yps,
                    total_deposited,
                    undo,
                },
            ),
        )
    }

    /// Completes a collection once its transfer has been made, and returns
    /// the tokens that were sent.
    ///
    /// `balance_before` and `balance_after` are the vault's balances of the
    /// underlying token around the transfer. Unless exactly the yield left,
    /// it is put back.
    pub fn finish_collection(
        env: &mut Env,
        pending: PendingCollection,
        balance_before: i128,
        balance_after: i128,
    ) -> (r: Result<i128, VaultError>)
        ensures
            ends_with(r, delta_error(balance_before - balance_after, pending.amount)),
            match r {
                Ok(amount) => {
                    &&& amount == pending.amount
                    &&& final(env)@ == collected(old(env)@, pending)
                },
                Err(_) => final(env)@ == uncollected(old(env)@, pending),
            },
    {
        exit_reentrancy_guard(env);
        match assert_outgoing_transfer(balance_before, balance_after, pending.amount) {
            Ok(_) => {},
            Err(e) => {
                let id: u64 = pending.caller.id;
                put_back(&mut env.user_checkpoints, id, pending.undo.checkpoint);
                put_back(&mut env.user_pending_yields, id, pending.undo.stored_yield);
                set_total_deposited(env, pending.undo.total_deposited);
                return Err(e);
            },
        }
        env.publish(
            Event::YieldCollected {
                caller: pending.caller,
                amount: pending.amount,
                cumulative_yps: pending.cumulative_yps,
                total_deposited: pending.total_deposited,
            },
        );
        Ok(pending.amount)
    }

    /// The yield that `addr` can collect now.
    pub fn pending_yield(env: &Env, addr: Address) -> (r: i128)
        ensures
            r == pending_yield_of(env@, addr),
    {
        let delta_yps: i128 = saturating_minus(
            get_cumulative_yps(env),
            get_user_checkpoint(env, addr),
        );
        let accrued: i128 = match mul_div(get_balance(env, addr), delta_yps, YIELD_PRECISION) {
            Ok(accrued) => accrued,
            Err(_) => 0,
        };
        match plus(get_user_pending_yield(env, addr), accrued) {
            Ok(total) => total,
            Err(_) => 0,
        }
    }

    /// The number of distributions so far.
    pub fn distribution_epoch(env: &Env) -> (r: u64)
        ensures
            r == env@.distribution_epoch,
    {
        get_distribution_epoch(env)
    }
}

} // verus!
