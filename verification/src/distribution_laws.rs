use crate::address::Address;
use crate::distribution::{
    accrued, accurate, claimable, collect_error, collected, collection_pending, credit_error,
    creditable, distribute_yield_error, distribute_yield_token_error, distributed, distributed_at,
    distribution_credited, distribution_fee, distribution_pending, fee_computable, net_of_fee,
    pending_yield_of, preview_error, preview_of, settled, spread_error, tolerance,
    yield_per_share, PendingCollection, PendingDistribution,
};
use crate::env::Model;
use crate::errors::VaultError;
use crate::events::Event;
use crate::fee::perf_fee_of;
use crate::foundation_laws::{
    law_mul_div_is_a_rounded_quotient, law_performance_fee_is_the_rate,
    law_quotients_round_toward_zero, rounds_to,
};
use crate::math::fits;
use crate::transfer::Transfer;
use crate::yield_laws::after_collection;
use vstd::prelude::*;

verus! {

/// The yield per share is the net yield over the shares, in units of 1e-12, and
/// what shareholders receive is that times the shares. Both are rounded toward
/// zero.
pub proof fn law_yield_is_spread_evenly(net: i128, total_shares: i128, yps: i128)
    ensures
        match yield_per_share(net, total_shares) {
            Some(y) => fits(net * 1_000_000_000_000) && rounds_to(
                y as int,
                net * 1_000_000_000_000,
                total_shares as int,
            ),
            None => !fits(net * 1_000_000_000_000) || total_shares == 0 || total_shares == -1
                && net * 1_000_000_000_000 == i128::MIN,
        },
        match distributed_at(yps, total_shares) {
            Some(d) => fits(yps * total_shares) && rounds_to(
                d as int,
                yps * total_shares,
                1_000_000_000_000,
            ),
            None => !fits(yps * total_shares),
        },
{
    law_mul_div_is_a_rounded_quotient(net as int, 1_000_000_000_000, total_shares as int);
    law_mul_div_is_a_rounded_quotient(yps as int, total_shares as int, 1_000_000_000_000);
}

/// What shareholders receive may miss the net yield, in either direction, by a
/// ten-thousandth of it, rounded up, and by no more.
pub proof fn law_accuracy_is_a_ten_thousandth(net: i128, received: i128)
    ensures
        rounds_to(tolerance(net), net + 9_999, 10_000),
        net >= 0 ==> (tolerance(net) - 1) * 10_000 < net <= tolerance(net) * 10_000,
        accurate(net, received) <==> -tolerance(net) <= received - net <= tolerance(net),
{
    law_quotients_round_toward_zero(net + 9_999, 10_000);
}

/// What a distribution leaves after its fee: the performance fee is taken off
/// its value, where both are amounts.
pub proof fn law_distributions_pay_the_performance_fee(m: Model, value: i128)
    ensures
        distribution_fee(m, value) == perf_fee_of(value, m.perf_fee_bps),
        fee_computable(m, value) <==> perf_fee_of(value, m.perf_fee_bps) is Some && fits(
            value - perf_fee_of(value, m.perf_fee_bps)->0,
        ),
        fee_computable(m, value) ==> net_of_fee(m, value) == value - perf_fee_of(
            value,
            m.perf_fee_bps,
        )->0,
        fee_computable(m, value) && value >= 0 ==> {
            let fee = distribution_fee(m, value)->0;
            fee * 10_000 <= value * m.perf_fee_bps < (fee + 1) * 10_000
        },
{
    if value >= 0 {
        law_performance_fee_is_the_rate(value, m.perf_fee_bps);
    }
}

/// What can be spread: a net yield that comes to something per share, of which
/// shareholders receive enough, and whose totals are amounts.
pub proof fn law_what_can_be_distributed(m: Model, value: i128)
    requires
        fee_computable(m, value),
    ensures
        ({
            let net = net_of_fee(m, value);
            let y = yield_per_share(net, m.total_shares);
            let d = distributed_at(y->0, m.total_shares);
            let something = y is Some && y->0 != 0;
            let measured = something && d is Some && net + 9_999 <= i128::MAX;
            let close = -tolerance(net) <= d->0 - net <= tolerance(net);
            let room = fits(m.cumulative_yps + y->0) && fits(m.total_deposited + net) && fits(
                m.total_fee_collected + perf_fee_of(value, m.perf_fee_bps)->0,
            );
            &&& match credit_error(m, value) {
                None => measured && close && room,
                Some(VaultError::YieldTooSmall) => y == Some(0i128),
                Some(VaultError::DistributionAccuracyError) => measured && !close,
                Some(VaultError::MathOverflow) => y is None || something && !measured || measured
                    && close && !room,
                Some(_) => false,
            }
            &&& match spread_error(net, m.total_shares) {
                None => measured && close,
                Some(VaultError::YieldTooSmall) => y == Some(0i128),
                Some(VaultError::DistributionAccuracyError) => measured && !close,
                Some(VaultError::MathOverflow) => y is None || something && !measured,
                Some(_) => false,
            }
            &&& creditable(m, value) <==> room
        }),
{
}

/// What the answer to a distribution tells.
pub proof fn law_answers_to_distributions(
    m: Model,
    caller: Address,
    yield_amount: i128,
    balance: i128,
)
    ensures
        ({
            let called = !m.locked && m.has_auth(caller) && yield_amount > 0;
            let running = called && m.admin is Some && !m.paused;
            let held = running && m.total_shares != 0;
            let guarded = held && m.token is Some && balance == m.total_deposited;
            let priced = guarded && fee_computable(m, yield_amount);
            let e = distribute_yield_error(m, caller, yield_amount, balance);
            match e {
                None => priced && credit_error(m, yield_amount) is None,
                Some(VaultError::Reentrancy) => m.locked,
                Some(VaultError::NotAuthorized) => !m.locked && !m.has_auth(caller),
                Some(VaultError::ZeroAmount) => !m.locked && m.has_auth(caller) && yield_amount
                    <= 0,
                Some(VaultError::NotInitialized) => called && (m.admin is None || held && m.token
                    is None),
                Some(VaultError::VaultPaused) => called && m.admin is Some && m.paused,
                Some(VaultError::ZeroShares) => running && m.total_shares == 0,
                Some(VaultError::BalanceMismatch) => held && m.token is Some && balance
                    != m.total_deposited,
                Some(VaultError::MathOverflow) => guarded && (!fee_computable(m, yield_amount)
                    || credit_error(m, yield_amount) == e),
                Some(_) => priced && credit_error(m, yield_amount) == e,
            }
        }),
{
}

/// What the answer to a distribution of another token tells.
pub proof fn law_answers_to_token_distributions(
    m: Model,
    caller: Address,
    alt_token: Address,
    yield_amount: i128,
    underlying_amount: i128,
    balance: i128,
)
    ensures
        ({
            let called = !m.locked && m.has_auth(caller) && yield_amount > 0 && underlying_amount
                > 0;
            let running = called && m.admin is Some && !m.paused;
            let accepted = running && m.accepts_yield_token(alt_token);
            let held = accepted && m.total_shares != 0;
            let guarded = held && m.token is Some && balance == m.total_deposited;
            let sane = guarded && fee_computable(m, underlying_amount) && underlying_amount
                <= 1_000_000_000_000_000_000_000_000;
            let e = distribute_yield_token_error(
                m,
                caller,
                alt_token,
                yield_amount,
                underlying_amount,
                balance,
            );
            match e {
                None => sane && credit_error(m, underlying_amount) is None,
                Some(VaultError::Reentrancy) => m.locked,
                Some(VaultError::NotAuthorized) => !m.locked && !m.has_auth(caller),
                Some(VaultError::ZeroAmount) => !m.locked && m.has_auth(caller) && (yield_amount
                    <= 0 || underlying_amount <= 0),
                Some(VaultError::NotInitialized) => called && (m.admin is None || held && m.token
                    is None),
                Some(VaultError::VaultPaused) => called && m.admin is Some && m.paused,
                Some(VaultError::InvalidAddress) => running && !m.accepts_yield_token(alt_token),
                Some(VaultError::ZeroShares) => accepted && m.total_shares == 0,
                Some(VaultError::BalanceMismatch) => held && m.token is Some && balance
                    != m.total_deposited,
                Some(VaultError::OraclePriceTooHigh) => guarded && fee_computable(
                    m,
                    underlying_amount,
                ) && underlying_amount > 1_000_000_000_000_000_000_000_000,
                Some(VaultError::MathOverflow) => guarded && (!fee_computable(m, underlying_amount)
                    || sane && credit_error(m, underlying_amount) == e),
                Some(_) => sane && credit_error(m, underlying_amount) == e,
            }
        }),
{
}

/// What a distribution does: its value less the fee is added to the assets, the
/// fee to the fees, the yield per share to what every share has earned, one
/// epoch is counted, exactly the yield is asked of the keeper in the token that
/// it is paid in, and one event reports it. Nothing else changes.
pub proof fn law_distributions_credit_and_nothing_else(
    m: Model,
    caller: Address,
    alt_token: Option<Address>,
    yield_amount: i128,
    value: i128,
)
    requires
        fee_computable(m, value),
        credit_error(m, value) is None,
        m.distribution_epoch < u64::MAX,
    ensures
        ({
            let p = distribution_pending(m, caller, alt_token, yield_amount, value);
            let after = distributed(
                Model { locked: true, ..distribution_credited(m, value) },
                p,
            );
            let fee = perf_fee_of(value, m.perf_fee_bps)->0;
            let y = yield_per_share(net_of_fee(m, value), m.total_shares)->0;
            &&& p.transfer == (Transfer::Pull {
                token: match alt_token {
                    Some(token) => token,
                    None => m.token->0,
                },
                from: caller,
                amount: yield_amount,
            })
            &&& p.yield_amount == yield_amount
            &&& p.fee_amount == fee
            &&& p.net_yield == value - fee
            &&& p.delta_yps == y
            &&& after.cumulative_yps == m.cumulative_yps + y
            &&& after.total_deposited == m.total_deposited + value - fee
            &&& after.total_fee_collected == m.total_fee_collected + fee
            &&& after.distribution_epoch == m.distribution_epoch + 1
            &&& after.events == m.events.push(
                match alt_token {
                    None => Event::YieldDistributed {
                        caller,
                        yield_amount,
                        net_yield: p.net_yield,
                        fee_amount: fee,
                        total_shares: m.total_shares,
                        cumulative_yps: after.cumulative_yps,
                        epoch: after.distribution_epoch,
                    },
                    Some(alt_token) => Event::YieldDistributedToken {
                        caller,
                        alt_token,
                        yield_amount,
                        net_underlying: p.net_yield,
                        fee_amount: fee,
                        total_shares: m.total_shares,
                        cumulative_yps: after.cumulative_yps,
                        epoch: after.distribution_epoch,
                    },
                },
            )
            &&& after == (Model {
                locked: false,
                cumulative_yps: after.cumulative_yps,
                total_deposited: after.total_deposited,
                total_fee_collected: after.total_fee_collected,
                distribution_epoch: after.distribution_epoch,
                events: after.events,
                ..m
            })
        }),
{
}

/// The end of a distribution or a collection reports exactly what it was.
pub proof fn law_finished_distribution_reports_itself(
    m: Model,
    p: PendingDistribution,
    c: PendingCollection,
)
    ensures
        p.alt_token is None ==> distributed(m, p).events == m.events.push(
            Event::YieldDistributed {
                caller: p.caller,
                yield_amount: p.yield_amount,
                net_yield: p.net_yield,
                fee_amount: p.fee_amount,
                total_shares: p.total_shares,
                cumulative_yps: p.cumulative_yps,
                epoch: p.epoch,
            },
        ),
        p.alt_token is Some ==> distributed(m, p).events == m.events.push(
            Event::YieldDistributedToken {
                caller: p.caller,
                alt_token: p.alt_token->0,
                yield_amount: p.yield_amount,
                net_underlying: p.net_yield,
                fee_amount: p.fee_amount,
                total_shares: p.total_shares,
                cumulative_yps: p.cumulative_yps,
                epoch: p.epoch,
            },
        ),
        collected(m, c).events == m.events.push(
            Event::YieldCollected {
                caller: c.caller,
                amount: c.amount,
                cumulative_yps: c.cumulative_yps,
                total_deposited: c.total_deposited,
            },
        ),
{
}

/// What a preview tells: the net yield, the yield per share, and what
/// shareholders would receive of it, and whether that is close enough. Where
/// nothing comes of it per share, the rest is nothing. Whether the vault is
/// paused, locked or short of tokens has no say.
pub proof fn law_previews_show_the_distribution(m: Model, yield_amount: i128)
    ensures
        ({
            let net = net_of_fee(m, yield_amount);
            let y = yield_per_share(net, m.total_shares);
            let d = distributed_at(y->0, m.total_shares);
            let asked = yield_amount > 0 && m.admin is Some && m.total_shares != 0;
            let spread = asked && fee_computable(m, yield_amount) && y is Some;
            let measured = d is Some && net + 9_999 <= i128::MAX;
            &&& match preview_error(m, yield_amount) {
                None => spread && (y->0 != 0 ==> measured),
                Some(VaultError::ZeroAmount) => yield_amount <= 0,
                Some(VaultError::NotInitialized) => yield_amount > 0 && m.admin is None,
                Some(VaultError::ZeroShares) => yield_amount > 0 && m.admin is Some
                    && m.total_shares == 0,
                Some(VaultError::MathOverflow) => asked && (!spread || y->0 != 0 && !measured),
                Some(_) => false,
            }
            &&& preview_of(m, yield_amount).0 == net
            &&& spread ==> preview_of(m, yield_amount).1 == y->0
            &&& spread && y->0 == 0 ==> preview_of(m, yield_amount).2 == 0 && !preview_of(
                m,
                yield_amount,
            ).3
            &&& spread && y->0 != 0 && measured ==> {
                &&& preview_of(m, yield_amount).2 == d->0
                &&& preview_of(m, yield_amount).3 <==> -tolerance(net) <= d->0 - net <= tolerance(
                    net,
                )
            }
        }),
{
}

/// What somebody has earned is their shares times the yield per share since
/// their checkpoint, rounded toward zero, and it is collected together with
/// what is set aside for them.
pub proof fn law_earnings_follow_shares_and_checkpoint(m: Model, addr: Address)
    ensures
        ({
            let since = m.cumulative_yps - m.checkpoint(addr);
            &&& match accrued(m, addr) {
                Some(x) => fits(m.balance(addr) * since) && rounds_to(
                    x as int,
                    m.balance(addr) * since,
                    1_000_000_000_000,
                ),
                None => !fits(m.balance(addr) * since),
            }
            &&& claimable(m, addr) == m.stored_yield(addr) + accrued(m, addr)->0
        }),
{
    law_mul_div_is_a_rounded_quotient(
        m.balance(addr) as int,
        m.cumulative_yps - m.checkpoint(addr),
        1_000_000_000_000,
    );
}

/// What is shown as pending is what is set aside and what has accrued. An
/// overflow of the one shows the other alone, and an overflow of the sum
/// nothing.
pub proof fn law_pending_yield_is_what_was_earned(m: Model, addr: Address)
    requires
        fits(m.cumulative_yps - m.checkpoint(addr)),
    ensures
        accrued(m, addr) is Some && fits(claimable(m, addr)) ==> pending_yield_of(m, addr)
            == claimable(m, addr),
        accrued(m, addr) is Some && !fits(claimable(m, addr)) ==> pending_yield_of(m, addr) == 0,
        accrued(m, addr) is None ==> pending_yield_of(m, addr) == m.stored_yield(addr),
{
}

/// Where the difference to the checkpoint is out of range, the nearest amount
/// stands for it in what is shown as pending.
pub proof fn law_pending_yield_out_of_range(m: Model, addr: Address, since: i128, earned: i128)
    requires
        m.cumulative_yps - m.checkpoint(addr) > i128::MAX && since == i128::MAX
            || m.cumulative_yps - m.checkpoint(addr) < i128::MIN && since == i128::MIN,
        fits(m.balance(addr) * since),
        rounds_to(earned as int, m.balance(addr) * since, 1_000_000_000_000),
        fits(m.stored_yield(addr) + earned),
    ensures
        pending_yield_of(m, addr) == m.stored_yield(addr) + earned,
{
    let product = m.balance(addr) * since;
    law_mul_div_is_a_rounded_quotient(
        m.balance(addr) as int,
        since as int,
        1_000_000_000_000,
    );
    law_quotients_round_toward_zero(product, 1_000_000_000_000);
    crate::foundation_laws::law_rounding_is_unique(
        earned as int,
        crate::math::quotient(product, 1_000_000_000_000),
        product,
        1_000_000_000_000,
    );
}

/// What the answer to a collection tells.
pub proof fn law_answers_to_collections(m: Model, caller: Address)
    ensures
        ({
            let called = !m.locked && m.has_auth(caller);
            let running = called && m.admin is Some && !m.paused;
            let counted = running && fits(m.cumulative_yps - m.checkpoint(caller)) && accrued(
                m,
                caller,
            ) is Some && fits(claimable(m, caller));
            let due = claimable(m, caller);
            match collect_error(m, caller) {
                None => counted && (due > 0 ==> m.token is Some && fits(m.total_deposited - due)),
                Some(VaultError::Reentrancy) => m.locked,
                Some(VaultError::NotAuthorized) => !m.locked && !m.has_auth(caller),
                Some(VaultError::NotInitialized) => called && (m.admin is None || counted && due
                    > 0 && m.token is None),
                Some(VaultError::VaultPaused) => called && m.admin is Some && m.paused,
                Some(VaultError::MathOverflow) => running && (!counted || due > 0 && m.token
                    is Some && !fits(m.total_deposited - due)),
                Some(_) => false,
            }
        }),
{
}

/// What a collection does: the collector is sent everything due to them, it is
/// no longer tracked, their yield is settled up to now with nothing set aside,
/// and one event reports it. Nothing else changes. Where nothing is due, only
/// the settlement takes place.
pub proof fn law_collections_pay_and_nothing_else(m: Model, caller: Address)
    requires
        collect_error(m, caller) is None,
    ensures
        ({
            let due = claimable(m, caller);
            let after = if due > 0 {
                after_collection(m, caller)
            } else {
                settled(m, caller)
            };
            &&& after.checkpoint(caller) == m.cumulative_yps
            &&& after.user_checkpoints.contains_key(caller.id)
            &&& after.stored_yield(caller) == 0
            &&& after.user_checkpoints.remove(caller.id) == m.user_checkpoints.remove(caller.id)
            &&& after.user_pending_yields.remove(caller.id) == m.user_pending_yields.remove(
                caller.id,
            )
            &&& after == (Model {
                user_checkpoints: after.user_checkpoints,
                user_pending_yields: after.user_pending_yields,
                total_deposited: after.total_deposited,
                events: after.events,
                ..m
            })
            &&& due <= 0 ==> after.total_deposited == m.total_deposited && after.events
                == m.events
            &&& due > 0 ==> {
                let p = collection_pending(m, caller);
                &&& p.amount == due
                &&& p.transfer == (Transfer::Push {
                    token: m.token->0,
                    to: caller,
                    amount: p.amount,
                })
                &&& after.total_deposited == m.total_deposited - due
                &&& after.events == m.events.push(
                    Event::YieldCollected {
                        caller,
                        amount: p.amount,
                        cumulative_yps: m.cumulative_yps,
                        total_deposited: after.total_deposited,
                    },
                )
            }
        }),
{
    let after = if claimable(m, caller) > 0 {
        after_collection(m, caller)
    } else {
        settled(m, caller)
    };
    assert(after.user_checkpoints.remove(caller.id) =~= m.user_checkpoints.remove(caller.id));
    assert(after.user_pending_yields.remove(caller.id) =~= m.user_pending_yields.remove(
        caller.id,
    ));
}

} // verus!
