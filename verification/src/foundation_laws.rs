use crate::address::Address;
use crate::env::Model;
use crate::errors::VaultError;
use crate::events::Event;
use crate::fee::perf_fee_of;
use crate::guard::{admin_check, admin_error, ends_with};
use crate::harvest::magnitude;
use crate::math::{clamped, clamped_difference, fits, mul_div_of, quotient};
use crate::oracle::oracle_price_error;
use crate::transfer::delta_error;
use vstd::arithmetic::div_mod::lemma_fundamental_div_mod;
use vstd::prelude::*;

verus! {

/// `q` is what is left of `a / b` when it is rounded toward zero: times `b` it
/// comes to no more than `a`, on the same side of zero, and misses it by less
/// than `b`.
pub open spec fn rounds_to(q: int, a: int, b: int) -> bool {
    &&& b != 0
    &&& a >= 0 ==> 0 <= q * b <= a
    &&& a < 0 ==> a <= q * b <= 0
    &&& -b < a - q * b < b || b < a - q * b < -b
}

/// A quotient is rounded toward zero.
pub proof fn law_quotients_round_toward_zero(a: int, b: int)
    requires
        b != 0,
    ensures
        rounds_to(quotient(a, b), a, b),
{
    let x = if a >= 0 { a } else { -a };
    let d = if b > 0 { b } else { -b };
    let q = x / d;
    lemma_fundamental_div_mod(x, d);
    assert(d * q == q * d) by (nonlinear_arith);
    assert((-q) * (-d) == q * d) by (nonlinear_arith);
    assert((-q) * d == -(q * d)) by (nonlinear_arith);
    assert(q * (-d) == -(q * d)) by (nonlinear_arith);
    assert(0 <= q * d) by (nonlinear_arith)
        requires
            q == x / d,
            x >= 0,
            d > 0,
    ;
}

/// There is only one number that a quotient rounds to.
pub proof fn law_rounding_is_unique(p: int, q: int, a: int, b: int)
    requires
        rounds_to(p, a, b),
        rounds_to(q, a, b),
    ensures
        p == q,
{
    let gap = p * b - q * b;
    assert(gap == (p - q) * b) by (nonlinear_arith)
        requires
            gap == p * b - q * b,
    ;
    if p != q {
        assert(gap >= b && gap >= -b || gap <= b && gap <= -b) by (nonlinear_arith)
            requires
                gap == (p - q) * b,
                p != q,
        ;
    }
}

/// A product divided is a quotient rounded toward zero. There is one exactly
/// where the product and the quotient are amounts and the divisor is not zero.
pub proof fn law_mul_div_is_a_rounded_quotient(a: int, b: int, c: int)
    ensures
        match mul_div_of(a, b, c) {
            Some(x) => i128::MIN <= a * b <= i128::MAX && rounds_to(x as int, a * b, c),
            None => a * b < i128::MIN || a * b > i128::MAX || c == 0 || c == -1 && a * b
                == i128::MIN,
        },
{
    if c != 0 {
        law_quotients_round_toward_zero(a * b, c);
        let p = a * b;
        let q = quotient(p, c);
        if i128::MIN <= p <= i128::MAX && !(i128::MIN <= q <= i128::MAX) {
            assert(c == -1 && p == i128::MIN) by (nonlinear_arith)
                requires
                    rounds_to(q, p, c),
                    c != 0,
                    i128::MIN <= p <= i128::MAX,
                    q < i128::MIN || q > i128::MAX,
                    p >= 0 ==> 0 <= q * c <= p,
                    p < 0 ==> p <= q * c <= 0,
            ;
        }
    }
}

/// A number is an amount exactly if it is in the range of `i128`, and clamping
/// leaves amounts alone and moves all else to the nearest one.
pub proof fn law_amounts_are_in_range(x: int, y: int)
    ensures
        fits(x) <==> -0x8000_0000_0000_0000_0000_0000_0000_0000 <= x
            <= 0x7fff_ffff_ffff_ffff_ffff_ffff_ffff_ffff,
        fits(clamped(x)),
        fits(x) ==> clamped(x) == x,
        x > i128::MAX ==> clamped(x) == i128::MAX,
        x < i128::MIN ==> clamped(x) == i128::MIN,
        clamped_difference(x, y) == clamped(x - y),
        magnitude(x) == x || magnitude(x) == -x,
        magnitude(x) >= 0,
{
}

/// What is stored for somebody is what is read, and nothing is read as zero or
/// as a refusal.
pub proof fn law_reads_see_what_is_stored(m: Model, a: Address, b: Address, v: i128, flag: bool)
    requires
        a != b,
    ensures
        (Model { balances: m.balances.insert(a.id, v), ..m }).balance(a) == v,
        (Model { balances: m.balances.insert(a.id, v), ..m }).balance(b) == m.balance(b),
        (Model { balances: m.balances.remove(a.id), ..m }).balance(a) == 0,
        (Model { user_checkpoints: m.user_checkpoints.insert(a.id, v), ..m }).checkpoint(a) == v,
        (Model { user_checkpoints: m.user_checkpoints.insert(a.id, v), ..m }).checkpoint(b)
            == m.checkpoint(b),
        (Model { user_checkpoints: m.user_checkpoints.remove(a.id), ..m }).checkpoint(a) == 0,
        (Model { user_pending_yields: m.user_pending_yields.insert(a.id, v), ..m }).stored_yield(a)
            == v,
        (Model { user_pending_yields: m.user_pending_yields.insert(a.id, v), ..m }).stored_yield(b)
            == m.stored_yield(b),
        (Model { user_pending_yields: m.user_pending_yields.remove(a.id), ..m }).stored_yield(a)
            == 0,
        (Model { whitelist: m.whitelist.insert(a.id, flag), ..m }).whitelisted(a) == flag,
        (Model { whitelist: m.whitelist.insert(a.id, flag), ..m }).whitelisted(b)
            == m.whitelisted(b),
        !(Model { whitelist: m.whitelist.remove(a.id), ..m }).whitelisted(a),
        (Model { yield_tokens: m.yield_tokens.insert(a.id, flag), ..m }).accepts_yield_token(a)
            == flag,
        (Model { yield_tokens: m.yield_tokens.insert(a.id, flag), ..m }).accepts_yield_token(b)
            == m.accepts_yield_token(b),
        !(Model { yield_tokens: m.yield_tokens.remove(a.id), ..m }).accepts_yield_token(a),
{
    assert(a.id != b.id);
}

/// Reads depend on nothing but the entry that they read: not on the totals, the
/// settings, the time or the lock.
pub proof fn law_reads_depend_on_their_entry_alone(m: Model, n: Model, a: Address)
    ensures
        m.balances.contains_key(a.id) ==> m.balance(a) == m.balances[a.id],
        !m.balances.contains_key(a.id) ==> m.balance(a) == 0,
        m.user_checkpoints.contains_key(a.id) ==> m.checkpoint(a) == m.user_checkpoints[a.id],
        !m.user_checkpoints.contains_key(a.id) ==> m.checkpoint(a) == 0,
        m.user_pending_yields.contains_key(a.id) ==> m.stored_yield(a)
            == m.user_pending_yields[a.id],
        !m.user_pending_yields.contains_key(a.id) ==> m.stored_yield(a) == 0,
        m.whitelist == n.whitelist ==> m.whitelisted(a) == n.whitelisted(a),
        m.yield_tokens == n.yield_tokens ==> m.accepts_yield_token(a) == n.accepts_yield_token(a),
        m.has_auth(a) <==> exists|i: int|
            0 <= i < m.authorized.len() && #[trigger] m.authorized[i] == a,
{
}

/// Publishing adds one event at the end and changes nothing else.
pub proof fn law_publishing_appends(m: Model, event: Event)
    ensures
        m.publish(event).events.len() == m.events.len() + 1,
        m.publish(event).events.last() == event,
        m.publish(event).events.drop_last() == m.events,
        m.publish(event) == (Model { events: m.publish(event).events, ..m }),
{
    assert(m.events.push(event).drop_last() =~= m.events);
}

/// A call that ends with an error ends with that one, and a call without an
/// error ends well.
pub proof fn law_calls_end_as_told(error: Option<VaultError>, e: VaultError, value: i128)
    ensures
        ends_with(Ok::<i128, VaultError>(value), error) <==> error is None,
        ends_with(Err::<i128, VaultError>(e), error) <==> error == Some(e),
{
}

/// An administrative call is let in exactly if nothing else is in progress and
/// the stored admin makes it and has authorised it. The answers tell what is
/// missing.
pub proof fn law_admission_of_the_admin(m: Model, admin: Address)
    ensures
        match admin_error(m, admin) {
            None => !m.locked && m.admin == Some(admin) && m.has_auth(admin),
            Some(VaultError::Reentrancy) => m.locked,
            Some(VaultError::NotInitialized) => !m.locked && m.admin is None,
            Some(VaultError::UpgradeUnauthorized) => !m.locked && m.admin is Some && m.admin
                != Some(admin),
            Some(VaultError::NotAuthorized) => !m.locked && m.admin == Some(admin) && !m.has_auth(
                admin,
            ),
            Some(_) => false,
        },
        !m.locked ==> admin_check(m, admin) == admin_error(m, admin),
{
}

/// A transfer is accepted exactly if it moved the expected amount.
pub proof fn law_transfers_move_the_expected_amount(delta: int, expected: i128)
    ensures
        match delta_error(delta, expected) {
            None => delta == expected,
            Some(VaultError::TransferFailed) => fits(delta) && delta != expected,
            Some(VaultError::MathOverflow) => !fits(delta),
            Some(_) => false,
        },
{
}

/// A performance fee is the rate of the amount, in ten-thousandths, rounded
/// down. There is one exactly where amount times rate is an amount.
pub proof fn law_performance_fee_is_the_rate(amount: i128, bps: u32)
    requires
        amount >= 0,
    ensures
        match perf_fee_of(amount, bps) {
            Some(fee) => fee * 10_000 <= amount * bps < (fee + 1) * 10_000,
            None => amount * bps > i128::MAX,
        },
{
    law_mul_div_is_a_rounded_quotient(amount as int, bps as int, 10_000);
    assert(amount * bps >= 0) by (nonlinear_arith)
        requires
            amount >= 0,
            bps >= 0,
    ;
}

/// A price is accepted exactly if it is positive, at most 1e24, and no older
/// than the maximum age; a price from the future is not old.
pub proof fn law_oracle_prices_are_sane_and_fresh(
    now: u64,
    price: i128,
    updated_at: u64,
    max_age: u64,
)
    ensures
        match oracle_price_error(now, price, updated_at, max_age) {
            None => 0 < price <= 1_000_000_000_000_000_000_000_000 && now <= updated_at + max_age,
            Some(VaultError::OraclePriceZero) => price <= 0,
            Some(VaultError::OraclePriceTooHigh) => price
                > 1_000_000_000_000_000_000_000_000,
            Some(VaultError::OraclePriceStale) => 0 < price
                <= 1_000_000_000_000_000_000_000_000 && now > updated_at + max_age,
            Some(_) => false,
        },
{
}

} // verus!
