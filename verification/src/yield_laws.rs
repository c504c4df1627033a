use crate::address::Address;
use crate::deposit::deposit_error;
use crate::distribution::{
    claimable, collect_error, collected, collection_pending, creditable, distribute_yield_error,
    distribute_yield_token_error, distributed, distributed_at, distribution_credited,
    distribution_pending,
    law_distribution_within_net, net_of_fee, pending_yield_of, preview_error, preview_of, settled,
    tolerance, uncollected, undistributed, YIELD_PRECISION,
};
use crate::env::Model;
use crate::errors::VaultError;
use crate::fee::{perf_fee_of, BPS_DENOMINATOR};
use crate::harvest::{
    cooling_down, harvest_credited, harvest_error, harvest_pending, harvest_token_credited,
    harvest_token_error, harvest_token_pending, harvested, harvested_token, magnitude,
    next_harvest_time, price_limited, tripped, unharvested, unharvested_token,
};
use crate::math::quotient;
use crate::share_laws::{
    after_deposit, after_emergency_withdraw, after_withdraw, lemma_floor, price_not_lower,
    shares_add_up,
};
use crate::sums::{amounts, sum};
use crate::transfer::delta_error;
use crate::withdraw::{emergency_withdraw_error, queued, redemption_for, withdraw_error};
use vstd::prelude::*;

verus! {

/// The vault after a harvest from start to end.
pub open spec fn after_harvest(m: Model, caller: Address, amount: i128) -> Model {
    harvested(
        Model { locked: true, ..harvest_credited(m, amount) },
        harvest_pending(m, caller, amount),
    )
}

/// The vault after a distribution of the underlying token from start to end.
pub open spec fn after_distribution(m: Model, caller: Address, amount: i128) -> Model {
    distributed(
        Model { locked: true, ..distribution_credited(m, amount) },
        distribution_pending(m, caller, None, amount, amount),
    )
}

/// The vault after a collection from start to end.
pub open spec fn after_collection(m: Model, caller: Address) -> Model {
    collected(Model { locked: true, ..settled(m, caller) }, collection_pending(m, caller))
}

/// A fee of at most the whole is between nothing and the amount, and at most
/// its rate.
pub proof fn law_fee_is_part_of_the_amount(amount: i128, bps: u32)
    requires
        amount >= 0,
        bps <= 10_000,
        perf_fee_of(amount, bps) is Some,
    ensures
        0 <= perf_fee_of(amount, bps)->0 <= amount,
        perf_fee_of(amount, bps)->0 * 10_000 <= amount * bps,
        amount > 0 && bps < 10_000 ==> perf_fee_of(amount, bps)->0 < amount,
{
    let a = amount as int;
    let b = bps as int;
    let f = perf_fee_of(amount, bps)->0 as int;
    assert(0 <= a * b <= a * 10_000) by (nonlinear_arith)
        requires
            a >= 0,
            0 <= b <= 10_000,
    ;
    if a > 0 && b < 10_000 {
        assert(a * b < a * 10_000) by (nonlinear_arith)
            requires
                a > 0,
                b < 10_000,
        ;
    }
    lemma_floor(a * b, BPS_DENOMINATOR as int);
}

/// A harvest adds what it brings, less a fee of at most the whole, to the
/// assets, and no shares: no holder is diluted and no share is worth less.
pub proof fn law_harvest_dilutes_nobody(m: Model, caller: Address, amount: i128, balance: i128)
    requires
        m.perf_fee_bps <= 10_000,
        m.total_shares >= 0,
        harvest_error(m, caller, amount, balance) is None,
    ensures
        ({
            let p = harvest_pending(m, caller, amount);
            let after = after_harvest(m, caller, amount);
            &&& p.yield_after_fee + p.fee_amount == amount
            &&& after.total_deposited == m.total_deposited + p.yield_after_fee
            &&& after.total_deposited >= m.total_deposited
            &&& m.perf_fee_bps < 10_000 ==> after.total_deposited > m.total_deposited
            &&& after.total_shares == m.total_shares
            &&& after.balances == m.balances
            &&& price_not_lower(m, after)
        }),
{
    law_fee_is_part_of_the_amount(amount, m.perf_fee_bps);
    let p = harvest_pending(m, caller, amount);
    let s = m.total_shares as int;
    let d = m.total_deposited as int;
    let e = p.total_deposited as int;
    assert(e * s >= d * s) by (nonlinear_arith)
        requires
            e >= d,
            s >= 0,
    ;
}

/// A harvest of another token likewise adds assets and no shares.
pub proof fn law_harvest_token_dilutes_nobody(
    m: Model,
    caller: Address,
    alt_token: Address,
    yield_amount: i128,
    underlying_amount: i128,
    balance: i128,
)
    requires
        m.perf_fee_bps <= 10_000,
        m.total_shares >= 0,
        harvest_token_error(m, caller, alt_token, yield_amount, underlying_amount, balance)
            is None,
    ensures
        ({
            let p = harvest_token_pending(m, caller, alt_token, yield_amount, underlying_amount);
            let after = harvested_token(
                Model { locked: true, ..harvest_token_credited(m, underlying_amount) },
                p,
            );
            &&& p.net_underlying + p.fee_amount == underlying_amount
            &&& after.total_deposited >= m.total_deposited
            &&& after.total_shares == m.total_shares
            &&& after.balances == m.balances
            &&& price_not_lower(m, after)
        }),
{
    if perf_fee_of(underlying_amount, m.perf_fee_bps) is Some {
        law_fee_is_part_of_the_amount(underlying_amount, m.perf_fee_bps);
    }
    let p = harvest_token_pending(m, caller, alt_token, yield_amount, underlying_amount);
    let s = m.total_shares as int;
    let d = m.total_deposited as int;
    let e = d + p.net_underlying;
    assert(e * s >= d * s) by (nonlinear_arith)
        requires
            e >= d,
            s >= 0,
    ;
}

/// With a price limit, an accepted harvest moves the share price by no more
/// than the limit.
pub proof fn law_accepted_harvest_is_within_limit(
    m: Model,
    caller: Address,
    amount: i128,
    balance: i128,
)
    requires
        price_limited(m),
        harvest_error(m, caller, amount, balance) is None,
    ensures
        magnitude(harvest_pending(m, caller, amount).total_deposited - m.total_deposited) * 10_000
            <= m.total_deposited * m.price_movement_limit,
{
}

/// A harvest that trips the circuit breaker credits nothing, and afterwards
/// the vault refuses deposits, withdrawals and harvests.
pub proof fn law_tripped_vault_stands_still(
    m: Model,
    caller: Address,
    amount: i128,
    balance: i128,
    other: Address,
    other_amount: i128,
    other_balance: i128,
)
    requires
        harvest_error(m, caller, amount, balance) == Some(VaultError::CircuitBreakerTripped),
    ensures
        ({
            let after = tripped(m, amount);
            &&& after.total_deposited == m.total_deposited
            &&& after.total_shares == m.total_shares
            &&& after.balances == m.balances
            &&& after.paused
            &&& deposit_error(after, other, other_amount, other_balance) is Some
            &&& withdraw_error(after, other, other_amount, other_balance) is Some
            &&& withdraw_error(after, other, other_amount, other_balance) != Some(
                VaultError::WithdrawalQueued,
            )
            &&& harvest_error(after, other, other_amount, other_balance) is Some
            &&& harvest_error(after, other, other_amount, other_balance) != Some(
                VaultError::CircuitBreakerTripped,
            )
        }),
{
}

/// After a harvest no other is accepted until the cooldown has passed;
/// afterwards, the cooldown stands in the way no more.
pub proof fn law_cooldown_separates_harvests(
    m: Model,
    caller: Address,
    amount: i128,
    balance: i128,
    later: Model,
    next_caller: Address,
    next_amount: i128,
    next_balance: i128,
)
    requires
        m.timestamp > 0,
        m.harvest_cooldown_secs > 0,
        harvest_error(m, caller, amount, balance) is None,
        later.last_harvest_time == after_harvest(m, caller, amount).last_harvest_time,
        later.harvest_cooldown_secs == m.harvest_cooldown_secs,
    ensures
        later.timestamp <= m.timestamp + m.harvest_cooldown_secs ==> harvest_error(
            later,
            next_caller,
            next_amount,
            next_balance,
        ) is Some,
        later.timestamp > m.timestamp + m.harvest_cooldown_secs ==> harvest_error(
            later,
            next_caller,
            next_amount,
            next_balance,
        ) != Some(VaultError::HarvestCooldown),
{
}

/// A vault that was never harvested, or whose last harvest was forgotten,
/// never has to wait.
pub proof fn law_first_harvest_never_waits(m: Model, caller: Address, amount: i128, balance: i128)
    requires
        m.last_harvest_time == 0 || m.harvest_cooldown_secs == 0,
    ensures
        harvest_error(m, caller, amount, balance) != Some(VaultError::HarvestCooldown),
        next_harvest_time(m) == 0,
{
}

/// The end of the cooldown is announced exactly while harvests have to wait.
pub proof fn law_next_harvest_time_announces_the_cooldown(m: Model)
    ensures
        next_harvest_time(m) == 0 <==> !cooling_down(m),
        cooling_down(m) && m.last_harvest_time + m.harvest_cooldown_secs <= u64::MAX
            ==> next_harvest_time(m) == m.last_harvest_time + m.harvest_cooldown_secs,
{
}

/// A preview foretells a distribution: where nothing else stands in the way,
/// a distribution is accepted exactly if its preview is accurate and the
/// totals can hold it, and then spreads what the preview says.
pub proof fn law_preview_foretells_distribution(
    m: Model,
    caller: Address,
    yield_amount: i128,
    balance: i128,
)
    requires
        !m.locked,
        m.has_auth(caller),
        !m.paused,
        m.token is Some,
        balance == m.total_deposited,
    ensures
        distribute_yield_error(m, caller, yield_amount, balance) is None <==> (preview_error(
            m,
            yield_amount,
        ) is None && preview_of(m, yield_amount).3 && creditable(m, yield_amount)),
        distribute_yield_error(m, caller, yield_amount, balance) is None ==> {
            let p = distribution_pending(m, caller, None, yield_amount, yield_amount);
            &&& p.net_yield == preview_of(m, yield_amount).0
            &&& p.delta_yps == preview_of(m, yield_amount).1
        },
{
}

/// An accepted distribution adds the yield less its fee to the assets, and no
/// shares; what shareholders receive of it is off by no more than the
/// tolerance.
pub proof fn law_distribution_is_accurate(
    m: Model,
    caller: Address,
    yield_amount: i128,
    balance: i128,
)
    requires
        m.perf_fee_bps <= 10_000,
        distribute_yield_error(m, caller, yield_amount, balance) is None,
    ensures
        ({
            let p = distribution_pending(m, caller, None, yield_amount, yield_amount);
            let received = distributed_at(p.delta_yps, m.total_shares)->0;
            &&& p.net_yield + p.fee_amount == yield_amount
            &&& 0 <= received <= p.net_yield
            &&& p.net_yield - received <= tolerance(p.net_yield)
        }),
{
    law_fee_is_part_of_the_amount(yield_amount, m.perf_fee_bps);
    law_distribution_within_net(net_of_fee(m, yield_amount), m.total_shares);
}

/// What each holder receives at `yps` per share.
pub open spec fn payouts(m: Model, yps: i128) -> Map<u64, int> {
    m.balances.map_values(|b: i128| quotient(b * yps, YIELD_PRECISION as int))
}

/// Rounding each holder's part down never pays out more than rounding the
/// whole down.
proof fn lemma_payouts_within_whole(balances: Map<u64, i128>, yps: i128)
    requires
        balances.dom().finite(),
        forall|k: u64| #[trigger] balances.contains_key(k) ==> balances[k] >= 0,
        yps >= 0,
    ensures
        sum(balances.map_values(|b: i128| quotient(b * yps, YIELD_PRECISION as int)))
            * YIELD_PRECISION <= sum(amounts(balances)) * yps,
    decreases balances.dom().len(),
{
    let f = |b: i128| quotient(b * yps, YIELD_PRECISION as int);
    let paid = balances.map_values(f);
    let all = amounts(balances);
    assert(paid.dom() =~= balances.dom());
    assert(all.dom() =~= balances.dom());
    if balances.dom().len() > 0 {
        let k = balances.dom().choose();
        assert(balances.dom().contains(k));
        lemma_payouts_within_whole(balances.remove(k), yps);
        assert(paid.remove(k) =~= balances.remove(k).map_values(f));
        assert(all.remove(k) =~= amounts(balances.remove(k)));
        let b = balances[k] as int;
        assert(b * yps >= 0) by (nonlinear_arith)
            requires
                b >= 0,
                yps >= 0,
        ;
        lemma_floor(b * yps, YIELD_PRECISION as int);
        let q = quotient(b * yps, YIELD_PRECISION as int);
        let rest_paid = sum(paid.remove(k));
        let rest = sum(all.remove(k));
        assert((q + rest_paid) * YIELD_PRECISION == q * YIELD_PRECISION + rest_paid
            * YIELD_PRECISION) by (nonlinear_arith);
        assert((b + rest) * yps == b * yps + rest * yps) by (nonlinear_arith);
    } else {
        assert(sum(paid) == 0);
        assert(sum(all) == 0);
        assert(0 * yps == 0) by (nonlinear_arith);
    }
}

/// All holders together never receive more of a distribution than was
/// distributed.
pub proof fn law_payouts_never_exceed_the_yield(
    m: Model,
    caller: Address,
    yield_amount: i128,
    balance: i128,
)
    requires
        m.perf_fee_bps <= 10_000,
        shares_add_up(m),
        m.total_shares >= 0,
        distribute_yield_error(m, caller, yield_amount, balance) is None,
    ensures
        ({
            let p = distribution_pending(m, caller, None, yield_amount, yield_amount);
            sum(payouts(m, p.delta_yps)) <= p.net_yield
        }),
{
    let p = distribution_pending(m, caller, None, yield_amount, yield_amount);
    let net = p.net_yield as int;
    let s = m.total_shares as int;
    let yps = p.delta_yps as int;
    law_fee_is_part_of_the_amount(yield_amount, m.perf_fee_bps);
    assert(net * YIELD_PRECISION >= 0);
    lemma_floor(net * YIELD_PRECISION, s);
    lemma_payouts_within_whole(m.balances, p.delta_yps);
    let paid = sum(payouts(m, p.delta_yps));
    assert(s * yps == yps * s) by (nonlinear_arith);
    assert(paid * YIELD_PRECISION <= net * YIELD_PRECISION);
}

/// What is shown as pending is what a collection pays.
pub proof fn law_pending_yield_is_what_is_collected(m: Model, caller: Address)
    requires
        collect_error(m, caller) is None,
    ensures
        pending_yield_of(m, caller) == claimable(m, caller),
        claimable(m, caller) > 0 ==> collection_pending(m, caller).amount == pending_yield_of(
            m,
            caller,
        ),
{
}

/// Once collected, yield is not pending any more.
pub proof fn law_collected_yield_is_gone(m: Model, caller: Address)
    ensures
        pending_yield_of(settled(m, caller), caller) == 0,
        pending_yield_of(
            after_collection(m, caller),
            caller,
        ) == 0,
{
    assert(m.balance(caller) * 0 == 0) by (nonlinear_arith);
}

/// A collection whose transfer fails leaves no trace.
pub proof fn law_failed_collection_leaves_no_trace(m: Model, caller: Address)
    requires
        collect_error(m, caller) is None,
    ensures
        uncollected(
            Model { locked: true, ..settled(m, caller) },
            collection_pending(m, caller),
        ) == m,
{
    let n = uncollected(
        Model { locked: true, ..settled(m, caller) },
        collection_pending(m, caller),
    );
    assert(n.user_checkpoints =~= m.user_checkpoints);
    assert(n.user_pending_yields =~= m.user_pending_yields);
}

/// A collection changes nobody else's pending yield, and nobody's shares.
pub proof fn law_collections_are_independent(m: Model, caller: Address, other: Address)
    requires
        other != caller,
    ensures
        ({
            let after = after_collection(m, caller);
            &&& pending_yield_of(after, other) == pending_yield_of(m, other)
            &&& after.balances == m.balances
            &&& after.total_shares == m.total_shares
        }),
{
}

/// Every distribution counts one epoch, and a distribution never lowers the
/// assets or changes shares.
pub proof fn law_distribution_dilutes_nobody(
    m: Model,
    caller: Address,
    yield_amount: i128,
    balance: i128,
)
    requires
        m.perf_fee_bps <= 10_000,
        m.distribution_epoch < u64::MAX,
        distribute_yield_error(m, caller, yield_amount, balance) is None,
    ensures
        ({
            let after = after_distribution(m, caller, yield_amount);
            &&& after.distribution_epoch == m.distribution_epoch + 1
            &&& after.total_deposited >= m.total_deposited
            &&& after.total_shares == m.total_shares
            &&& after.balances == m.balances
        }),
{
    law_fee_is_part_of_the_amount(yield_amount, m.perf_fee_bps);
}

/// A harvest or a distribution whose transfer fails leaves no trace.
pub proof fn law_failed_harvest_leaves_no_trace(
    m: Model,
    caller: Address,
    alt_token: Address,
    yield_amount: i128,
    underlying_amount: i128,
    balance: i128,
)
    ensures
        harvest_error(m, caller, yield_amount, balance) is None ==> unharvested(
            Model { locked: true, ..harvest_credited(m, yield_amount) },
            harvest_pending(m, caller, yield_amount),
        ) == m,
        harvest_token_error(m, caller, alt_token, yield_amount, underlying_amount, balance)
            is None ==> unharvested_token(
            Model { locked: true, ..harvest_token_credited(m, underlying_amount) },
            harvest_token_pending(m, caller, alt_token, yield_amount, underlying_amount),
        ) == m,
        distribute_yield_error(m, caller, yield_amount, balance) is None ==> undistributed(
            Model { locked: true, ..distribution_credited(m, yield_amount) },
            distribution_pending(m, caller, None, yield_amount, yield_amount),
        ) == m,
        distribute_yield_token_error(
            m,
            caller,
            alt_token,
            yield_amount,
            underlying_amount,
            balance,
        ) is None ==> undistributed(
            Model { locked: true, ..distribution_credited(m, underlying_amount) },
            distribution_pending(m, caller, Some(alt_token), yield_amount, underlying_amount),
        ) == m,
{
    assert(unharvested(
        Model { locked: true, ..harvest_credited(m, yield_amount) },
        harvest_pending(m, caller, yield_amount),
    ).price_snapshots =~= m.price_snapshots);
}

/// A harvest never lowers what any number of shares can be redeemed for.
pub proof fn law_harvest_never_lowers_redemptions(
    m: Model,
    caller: Address,
    amount: i128,
    balance: i128,
    shares: i128,
)
    requires
        m.perf_fee_bps <= 10_000,
        m.total_shares > 0,
        m.total_deposited >= 0,
        shares >= 0,
        harvest_error(m, caller, amount, balance) is None,
        redemption_for(
            after_harvest(m, caller, amount),
            shares,
        ) is Some,
    ensures
        redemption_for(m, shares) is Some,
        redemption_for(m, shares)->0 <= redemption_for(
            after_harvest(m, caller, amount),
            shares,
        )->0,
{
    law_harvest_dilutes_nobody(m, caller, amount, balance);
    let after = after_harvest(m, caller, amount);
    let x = shares as int;
    let s = m.total_shares as int;
    let d = m.total_deposited as int;
    let e = after.total_deposited as int;
    assert(0 <= x * d <= x * e) by (nonlinear_arith)
        requires
            x >= 0,
            0 <= d <= e,
    ;
    lemma_floor(x * d, s);
    lemma_floor(x * e, s);
    let q = quotient(x * d, s);
    let r = quotient(x * e, s);
    assert(q <= r) by (nonlinear_arith)
        requires
            q * s <= x * d,
            x * d <= x * e,
            x * e < r * s + s,
            s > 0,
    ;
}

/// An accepted distribution of another token is as accurate as one of the
/// underlying token: what shareholders receive is at most the value less its
/// fee, and off by no more than the tolerance.
pub proof fn law_token_distribution_is_accurate(
    m: Model,
    caller: Address,
    alt_token: Address,
    yield_amount: i128,
    underlying_amount: i128,
    balance: i128,
)
    requires
        m.perf_fee_bps <= 10_000,
        distribute_yield_token_error(
            m,
            caller,
            alt_token,
            yield_amount,
            underlying_amount,
            balance,
        ) is None,
    ensures
        ({
            let p = distribution_pending(
                m,
                caller,
                Some(alt_token),
                yield_amount,
                underlying_amount,
            );
            let received = distributed_at(p.delta_yps, m.total_shares)->0;
            &&& p.net_yield + p.fee_amount == underlying_amount
            &&& 0 <= received <= p.net_yield
            &&& p.net_yield - received <= tolerance(p.net_yield)
        }),
{
    law_fee_is_part_of_the_amount(underlying_amount, m.perf_fee_bps);
    law_distribution_within_net(net_of_fee(m, underlying_amount), m.total_shares);
}

/// The assets that the vault tracks never fall below nothing: not by a
/// deposit, a withdrawal, an emergency withdrawal or a harvest, and not by a
/// collection from a vault that holds what it tracks.
pub proof fn law_assets_never_negative(
    m: Model,
    caller: Address,
    amount: i128,
    balance: i128,
    balance_after: i128,
)
    requires
        m.perf_fee_bps <= 10_000,
        m.total_deposited >= 0,
    ensures
        deposit_error(m, caller, amount, balance) is None ==> after_deposit(
            m,
            caller,
            amount,
        ).total_deposited >= 0,
        withdraw_error(m, caller, amount, balance) is None ==> after_withdraw(
            m,
            caller,
            amount,
        ).total_deposited >= 0,
        withdraw_error(m, caller, amount, balance) == Some(VaultError::WithdrawalQueued)
            ==> queued(m, caller, amount).total_deposited >= 0,
        emergency_withdraw_error(m, caller, amount, balance) is None ==> after_emergency_withdraw(
            m,
            caller,
            amount,
            balance,
        ).total_deposited >= 0,
        harvest_error(m, caller, amount, balance) is None ==> after_harvest(
            m,
            caller,
            amount,
        ).total_deposited >= 0,
        collect_error(m, caller) is None && claimable(m, caller) > 0 && balance
            == m.total_deposited && balance_after >= 0 && delta_error(
            balance - balance_after,
            collection_pending(m, caller).amount,
        ) is None ==> after_collection(m, caller).total_deposited >= 0,
{
    if harvest_error(m, caller, amount, balance) is None {
        law_fee_is_part_of_the_amount(amount, m.perf_fee_bps);
    }
}

/// No yield is accepted while the vault's token balance is not exactly what it
/// tracks.
pub proof fn law_unexplained_balance_stops_yield(
    m: Model,
    caller: Address,
    alt_token: Address,
    amount: i128,
    value: i128,
    balance: i128,
)
    requires
        balance != m.total_deposited,
    ensures
        harvest_error(m, caller, amount, balance) is Some,
        harvest_error(m, caller, amount, balance) != Some(VaultError::CircuitBreakerTripped),
        harvest_token_error(m, caller, alt_token, amount, value, balance) is Some,
        distribute_yield_error(m, caller, amount, balance) is Some,
        distribute_yield_token_error(m, caller, alt_token, amount, value, balance) is Some,
{
}

} // verus!
