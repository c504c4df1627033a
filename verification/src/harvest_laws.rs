use crate::address::Address;
use crate::env::Model;
use crate::errors::VaultError;
use crate::events::Event;
use crate::fee::perf_fee_of;
use crate::foundation_laws::{
    law_performance_fee_is_the_rate, law_quotients_round_toward_zero, rounds_to,
};
use crate::harvest::{
    cooling_down, harvest_credited, harvest_error, harvest_fee, harvest_pending, harvest_price,
    harvest_token_credited, harvest_token_error, harvest_token_fee, harvest_token_pending,
    harvest_total, harvested, harvested_token, magnitude, next_harvest_time, register_error,
    tripped, PendingHarvest, PendingHarvestToken,
};
use crate::math::fits;
use crate::transfer::Transfer;
use crate::yield_laws::after_harvest;
use vstd::prelude::*;

verus! {

/// What the answer to a harvest tells. Where nothing else refuses it, the
/// circuit breaker trips exactly if a limit is set and the assets would move by
/// more than that many ten-thousandths of what they are.
pub proof fn law_answers_to_harvests(m: Model, caller: Address, amount: i128, balance: i128)
    ensures
        ({
            let called = !m.locked && m.has_auth(caller) && amount > 0;
            let running = called && m.admin is Some && !m.paused;
            let waiting = m.harvest_cooldown_secs > 0 && m.last_harvest_time > 0 && m.timestamp
                <= m.last_harvest_time + m.harvest_cooldown_secs;
            let due = running && m.total_shares != 0 && !waiting;
            let guarded = due && m.token is Some && balance == m.total_deposited;
            let fee = perf_fee_of(amount, m.perf_fee_bps);
            let net = amount - fee->0;
            let bookable = guarded && fee is Some && fits(net) && fits(
                m.total_fee_collected + fee->0,
            ) && fits(m.total_deposited + net);
            let limited = m.price_movement_limit > 0 && m.total_deposited > 0;
            let moved = (if net < 0 {
                -net
            } else {
                net
            }) * 10_000;
            let allowed = m.total_deposited * m.price_movement_limit;
            match harvest_error(m, caller, amount, balance) {
                None => bookable && (limited ==> moved <= allowed <= i128::MAX),
                Some(VaultError::CircuitBreakerTripped) => bookable && limited && allowed < moved
                    <= i128::MAX,
                Some(VaultError::Reentrancy) => m.locked,
                Some(VaultError::NotAuthorized) => !m.locked && !m.has_auth(caller),
                Some(VaultError::ZeroAmount) => !m.locked && m.has_auth(caller) && amount <= 0,
                Some(VaultError::NotInitialized) => called && (m.admin is None || due && m.token
                    is None),
                Some(VaultError::VaultPaused) => called && m.admin is Some && m.paused,
                Some(VaultError::ZeroShares) => running && m.total_shares == 0,
                Some(VaultError::HarvestCooldown) => running && m.total_shares != 0 && waiting,
                Some(VaultError::BalanceMismatch) => due && m.token is Some && balance
                    != m.total_deposited,
                Some(VaultError::MathOverflow) => guarded && (!bookable || limited && (moved
                    > i128::MAX || allowed > i128::MAX)),
                Some(_) => false,
            }
        }),
{
    let d = m.total_deposited as int;
    let l = m.price_movement_limit as int;
    if d > 0 {
        assert(d * l >= 0) by (nonlinear_arith)
            requires
                d > 0,
                l >= 0,
        ;
    }
}

/// What a harvest does: the yield less its fee is added to the assets, the fee
/// to the fees, the time and the share price are recorded, exactly the yield is
/// asked of the keeper, and one event reports it. Nothing else changes.
pub proof fn law_harvests_credit_and_nothing_else(
    m: Model,
    caller: Address,
    amount: i128,
    balance: i128,
)
    requires
        harvest_error(m, caller, amount, balance) is None,
    ensures
        ({
            let p = harvest_pending(m, caller, amount);
            let after = after_harvest(m, caller, amount);
            &&& p.transfer == (Transfer::Pull { token: m.token->0, from: caller, amount })
            &&& p.yield_amount == amount
            &&& p.fee_amount * 10_000 <= amount * m.perf_fee_bps < (p.fee_amount + 1) * 10_000
            &&& p.yield_after_fee == amount - p.fee_amount
            &&& after.total_deposited == m.total_deposited + p.yield_after_fee
            &&& after.total_fee_collected == m.total_fee_collected + p.fee_amount
            &&& after.last_harvest_time == m.timestamp
            &&& after.price_snapshots.contains_key(m.timestamp)
            &&& after.price_snapshots[m.timestamp] == p.share_price
            &&& after.price_snapshots.remove(m.timestamp) == m.price_snapshots.remove(m.timestamp)
            &&& after.events == m.events.push(
                Event::Harvest {
                    caller,
                    yield_amount: amount,
                    yield_after_fee: p.yield_after_fee,
                    fee_amount: p.fee_amount,
                    total_deposited: after.total_deposited,
                },
            )
            &&& after == (Model {
                total_deposited: after.total_deposited,
                total_fee_collected: after.total_fee_collected,
                last_harvest_time: m.timestamp,
                price_snapshots: after.price_snapshots,
                events: after.events,
                ..m
            })
            &&& (Model { locked: true, ..harvest_credited(m, amount) }) == (Model {
                locked: true,
                events: m.events,
                ..after
            })
        }),
{
    law_performance_fee_is_the_rate(amount, m.perf_fee_bps);
    assert(after_harvest(m, caller, amount).price_snapshots.remove(m.timestamp)
        =~= m.price_snapshots.remove(m.timestamp));
}

/// The share price that a harvest records is the assets per share after it, in
/// millionths, rounded toward zero; a price out of range is recorded as the
/// nearest amount.
pub proof fn law_recorded_price_is_assets_per_share(
    m: Model,
    caller: Address,
    amount: i128,
    balance: i128,
)
    requires
        harvest_error(m, caller, amount, balance) is None,
    ensures
        ({
            let price = harvest_pending(m, caller, amount).share_price;
            let assets = after_harvest(m, caller, amount).total_deposited;
            ||| rounds_to(price as int, assets * 1_000_000, m.total_shares as int)
            ||| price == i128::MAX && exists|q: int| #[trigger]
                rounds_to(q, assets * 1_000_000, m.total_shares as int) && q > i128::MAX
            ||| price == i128::MIN && exists|q: int| #[trigger]
                rounds_to(q, assets * 1_000_000, m.total_shares as int) && q < i128::MIN
        }),
{
    let assets = after_harvest(m, caller, amount).total_deposited;
    law_quotients_round_toward_zero(assets * 1_000_000, m.total_shares as int);
}

/// A tripped breaker pauses the vault and reports where the assets stood, where
/// they would have gone, and the limit. Nothing else changes.
pub proof fn law_tripped_breaker_pauses_and_nothing_else(
    m: Model,
    caller: Address,
    amount: i128,
    balance: i128,
)
    requires
        harvest_error(m, caller, amount, balance) == Some(VaultError::CircuitBreakerTripped),
    ensures
        ({
            let after = tripped(m, amount);
            let fee = perf_fee_of(amount, m.perf_fee_bps)->0;
            &&& after == (Model { paused: true, events: after.events, ..m })
            &&& after.events == m.events.push(
                Event::PriceMovement {
                    total_deposited: m.total_deposited,
                    new_total: (m.total_deposited + amount - fee) as i128,
                    limit_bps: m.price_movement_limit,
                },
            )
            &&& m.price_movement_limit > 0
            &&& m.total_deposited > 0
            &&& magnitude(harvest_total(m, amount) - m.total_deposited) * 10_000
                > m.total_deposited * m.price_movement_limit
        }),
{
}

/// The parts of a harvest: its fee is the performance fee, and what is left is
/// added to the assets. The price that it records depends on nothing else but
/// the shares outstanding.
pub proof fn law_parts_of_a_harvest(m: Model, n: Model, amount: i128)
    ensures
        harvest_fee(m, amount) == perf_fee_of(amount, m.perf_fee_bps),
        harvest_total(m, amount) == m.total_deposited + amount - perf_fee_of(
            amount,
            m.perf_fee_bps,
        )->0,
        m.total_deposited == n.total_deposited && m.perf_fee_bps == n.perf_fee_bps
            && m.total_shares == n.total_shares ==> harvest_price(m, amount) == harvest_price(
            n,
            amount,
        ),
{
}

/// A harvest has to wait exactly while a cooldown is set, there was a harvest,
/// and no more than the cooldown has passed since. The end of the wait is
/// announced meanwhile, and nothing otherwise.
pub proof fn law_harvests_wait_for_the_cooldown(m: Model)
    ensures
        cooling_down(m) <==> m.harvest_cooldown_secs > 0 && m.last_harvest_time > 0 && m.timestamp
            <= m.last_harvest_time + m.harvest_cooldown_secs,
        cooling_down(m) ==> next_harvest_time(m) == m.last_harvest_time + m.harvest_cooldown_secs
            || next_harvest_time(m) == u64::MAX && m.last_harvest_time + m.harvest_cooldown_secs
            > u64::MAX,
        !cooling_down(m) ==> next_harvest_time(m) == 0,
{
}

/// What the answer to a harvest of another token tells.
pub proof fn law_answers_to_token_harvests(
    m: Model,
    caller: Address,
    alt_token: Address,
    yield_amount: i128,
    underlying_amount: i128,
    balance: i128,
)
    ensures
        ({
            let called = !m.locked && m.has_auth(caller) && yield_amount > 0 && underlying_amount
                > 0;
            let running = called && m.admin is Some && !m.paused;
            let accepted = running && m.total_shares != 0 && m.accepts_yield_token(alt_token);
            let guarded = accepted && m.token is Some && balance == m.total_deposited;
            let fee = match perf_fee_of(underlying_amount, m.perf_fee_bps) {
                Some(fee) => fee,
                None => 0,
            };
            let net = underlying_amount - fee;
            let sane = guarded && fits(net) && underlying_amount
                <= 1_000_000_000_000_000_000_000_000;
            let bookable = fits(m.total_deposited + net) && fits(m.total_fee_collected + fee);
            match harvest_token_error(
                m,
                caller,
                alt_token,
                yield_amount,
                underlying_amount,
                balance,
            ) {
                None => sane && bookable,
                Some(VaultError::Reentrancy) => m.locked,
                Some(VaultError::NotAuthorized) => !m.locked && !m.has_auth(caller),
                Some(VaultError::ZeroAmount) => !m.locked && m.has_auth(caller) && (yield_amount
                    <= 0 || underlying_amount <= 0),
                Some(VaultError::NotInitialized) => called && (m.admin is None || accepted
                    && m.token is None),
                Some(VaultError::VaultPaused) => called && m.admin is Some && m.paused,
                Some(VaultError::ZeroShares) => running && m.total_shares == 0,
                Some(VaultError::InvalidAddress) => running && m.total_shares != 0
                    && !m.accepts_yield_token(alt_token),
                Some(VaultError::BalanceMismatch) => accepted && m.token is Some && balance
                    != m.total_deposited,
                Some(VaultError::OraclePriceTooHigh) => guarded && fits(net) && underlying_amount
                    > 1_000_000_000_000_000_000_000_000,
                Some(VaultError::MathOverflow) => guarded && !fits(net) || sane && !bookable,
                Some(_) => false,
            }
        }),
{
}

/// What a harvest of another token does: its value less the fee is added to the
/// assets, the fee to the fees, exactly the yield in that token is asked of the
/// keeper, and one event reports it. Nothing else changes.
pub proof fn law_token_harvests_credit_and_nothing_else(
    m: Model,
    caller: Address,
    alt_token: Address,
    yield_amount: i128,
    underlying_amount: i128,
    balance: i128,
)
    requires
        harvest_token_error(m, caller, alt_token, yield_amount, underlying_amount, balance)
            is None,
    ensures
        ({
            let p = harvest_token_pending(m, caller, alt_token, yield_amount, underlying_amount);
            let after = harvested_token(
                Model { locked: true, ..harvest_token_credited(m, underlying_amount) },
                p,
            );
            &&& p.transfer == (Transfer::Pull {
                token: alt_token,
                from: caller,
                amount: yield_amount,
            })
            &&& p.yield_amount == yield_amount
            &&& underlying_amount * m.perf_fee_bps <= i128::MAX ==> p.fee_amount * 10_000
                <= underlying_amount * m.perf_fee_bps < (p.fee_amount + 1) * 10_000
            &&& underlying_amount * m.perf_fee_bps > i128::MAX ==> p.fee_amount == 0
            &&& p.fee_amount == harvest_token_fee(m, underlying_amount)
            &&& p.net_underlying == underlying_amount - p.fee_amount
            &&& after.total_deposited == m.total_deposited + p.net_underlying
            &&& after.total_fee_collected == m.total_fee_collected + p.fee_amount
            &&& after.events == m.events.push(
                Event::HarvestToken {
                    caller,
                    alt_token,
                    yield_amount,
                    net_underlying: p.net_underlying,
                    fee_amount: p.fee_amount,
                },
            )
            &&& after == (Model {
                total_deposited: after.total_deposited,
                total_fee_collected: after.total_fee_collected,
                events: after.events,
                ..m
            })
        }),
{
    law_performance_fee_is_the_rate(underlying_amount, m.perf_fee_bps);
}

/// The end of a harvest reports exactly what the harvest was.
pub proof fn law_finished_harvest_reports_itself(
    m: Model,
    p: PendingHarvest,
    t: PendingHarvestToken,
)
    ensures
        harvested(m, p).events == m.events.push(
            Event::Harvest {
                caller: p.caller,
                yield_amount: p.yield_amount,
                yield_after_fee: p.yield_after_fee,
                fee_amount: p.fee_amount,
                total_deposited: p.total_deposited,
            },
        ),
        harvested_token(m, t).events == m.events.push(
            Event::HarvestToken {
                caller: t.caller,
                alt_token: t.alt_token,
                yield_amount: t.yield_amount,
                net_underlying: t.net_underlying,
                fee_amount: t.fee_amount,
            },
        ),
{
}

/// A yield token is registered exactly if the admin has authorised it.
pub proof fn law_answers_to_registrations(m: Model)
    ensures
        match register_error(m) {
            None => !m.locked && m.admin is Some && m.has_auth(m.admin->0),
            Some(VaultError::Reentrancy) => m.locked,
            Some(VaultError::NotInitialized) => !m.locked && m.admin is None,
            Some(VaultError::UpgradeUnauthorized) => !m.locked && m.admin is Some && !m.has_auth(
                m.admin->0,
            ),
            Some(_) => false,
        },
{
}

} // verus!
