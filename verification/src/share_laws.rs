use crate::address::Address;
use crate::deposit::{deposit_error, deposit_pending, deposited, minted, shares_for};
use crate::env::Model;
use crate::errors::VaultError;
use crate::math::quotient;
use crate::sums::{amounts, lemma_sum_bounds, lemma_sum_insert, sum};
use crate::transfer::delta_error;
use crate::undo::undone;
use crate::withdraw::{
    burned, emergency_pending, emergency_redeemed, emergency_redemption_for,
    emergency_withdraw_error, emergency_withdrawn, queued, redeemed, redemption_for,
    withdraw_error, withdraw_pending, withdrawn,
};
use vstd::arithmetic::div_mod::lemma_fundamental_div_mod;
use vstd::prelude::*;

verus! {

/// The shares of all holders add up to the shares outstanding, and nobody
/// holds less than nothing.
pub open spec fn shares_add_up(m: Model) -> bool {
    &&& m.balances.dom().finite()
    &&& forall|k: u64| #[trigger] m.balances.contains_key(k) ==> m.balances[k] >= 0
    &&& sum(amounts(m.balances)) == m.total_shares
}

/// One share is worth at least as much in `n` as in `m`.
pub open spec fn price_not_lower(m: Model, n: Model) -> bool {
    n.total_deposited * m.total_shares >= m.total_deposited * n.total_shares
}

/// The vault after a deposit from start to end.
pub open spec fn after_deposit(m: Model, caller: Address, amount: i128) -> Model {
    deposited(
        Model { locked: true, ..minted(m, caller, amount) },
        deposit_pending(m, caller, amount),
    )
}

/// The vault after a withdrawal from start to end.
pub open spec fn after_withdraw(m: Model, caller: Address, shares: i128) -> Model {
    withdrawn(
        Model { locked: true, ..redeemed(m, caller, shares) },
        withdraw_pending(m, caller, shares),
    )
}

/// The vault after an emergency withdrawal from start to end.
pub open spec fn after_emergency_withdraw(
    m: Model,
    caller: Address,
    shares: i128,
    balance: i128,
) -> Model {
    emergency_withdrawn(
        Model { locked: true, ..emergency_redeemed(m, caller, shares, balance) },
        emergency_pending(m, caller, shares, balance),
    )
}

/// What rounding down does to a quotient of numbers that are not negative.
pub proof fn lemma_floor(a: int, b: int)
    requires
        a >= 0,
        b > 0,
    ensures
        quotient(a, b) >= 0,
        quotient(a, b) * b <= a,
        a < quotient(a, b) * b + b,
{
    lemma_fundamental_div_mod(a, b);
    let q = a / b;
    assert(b * q == q * b) by (nonlinear_arith);
    assert(q >= 0) by (nonlinear_arith)
        requires
            q == a / b,
            a >= 0,
            b > 0,
    ;
}

/// Changing one holder's shares changes the sum by as much.
proof fn lemma_balance_change(m: Model, addr: Address, balance: i128)
    requires
        shares_add_up(m),
        balance >= 0,
    ensures
        m.balances.insert(addr.id, balance).dom().finite(),
        sum(amounts(m.balances.insert(addr.id, balance))) == m.total_shares + balance - m.balance(
            addr,
        ),
        forall|k: u64| #[trigger]
            m.balances.insert(addr.id, balance).contains_key(k) ==> m.balances.insert(
                addr.id,
                balance,
            )[k] >= 0,
{
    let before = amounts(m.balances);
    assert(before.dom() =~= m.balances.dom());
    lemma_sum_insert(before, addr.id, balance as int);
    assert(amounts(m.balances.insert(addr.id, balance)) =~= before.insert(
        addr.id,
        balance as int,
    ));
}

/// Where the shares add up, nobody holds more than all of them.
pub proof fn law_nobody_holds_more_than_all(m: Model, addr: Address)
    requires
        shares_add_up(m),
    ensures
        0 <= m.balance(addr) <= m.total_shares,
{
    let all = amounts(m.balances);
    assert(all.dom() =~= m.balances.dom());
    assert forall|k: u64| #[trigger] all.contains_key(k) implies all[k] >= 0 by {
        assert(m.balances.contains_key(k));
    }
    lemma_sum_bounds(all);
    if m.balances.contains_key(addr.id) {
        assert(all.contains_key(addr.id));
    }
}

/// A vault that nobody has used yet has no shares, so they add up.
pub proof fn law_fresh_shares_add_up(timestamp: u64)
    ensures
        shares_add_up(Model::fresh(timestamp)),
{
    assert(amounts(Model::fresh(timestamp).balances).dom() =~= Set::empty());
}

/// An empty vault mints one share for each token.
pub proof fn law_seed_deposit_is_one_to_one(m: Model, amount: i128)
    requires
        m.total_shares == 0 || m.total_deposited == 0,
    ensures
        shares_for(m, amount) == Some(amount),
{
}

/// An accepted deposit always mints at least one share, whatever the price of
/// a share: a deposit that is too small for one share is refused.
pub proof fn law_accepted_deposit_mints_shares(
    m: Model,
    caller: Address,
    amount: i128,
    balance: i128,
)
    requires
        deposit_error(m, caller, amount, balance) is None,
    ensures
        deposit_pending(m, caller, amount).new_shares >= 1,
{
}

/// A deposit is accepted only if the vault's token balance is exactly what it
/// tracks, and so is a withdrawal.
pub proof fn law_unexplained_balance_is_refused(
    m: Model,
    caller: Address,
    amount: i128,
    balance: i128,
)
    requires
        balance != m.total_deposited,
    ensures
        deposit_error(m, caller, amount, balance) is Some,
        withdraw_error(m, caller, amount, balance) is Some,
        withdraw_error(m, caller, amount, balance) != Some(VaultError::WithdrawalQueued),
{
}

/// A completed deposit keeps the shares adding up.
pub proof fn law_deposit_keeps_share_sum(
    m: Model,
    caller: Address,
    amount: i128,
    balance: i128,
)
    requires
        shares_add_up(m),
        deposit_error(m, caller, amount, balance) is None,
    ensures
        shares_add_up(
            after_deposit(m, caller, amount),
        ),
{
    let p = deposit_pending(m, caller, amount);
    law_nobody_holds_more_than_all(m, caller);
    lemma_balance_change(m, caller, (m.balance(caller) + p.new_shares) as i128);
}

/// Burning shares that their holder has keeps the shares adding up.
proof fn lemma_burn_keeps_share_sum(m: Model, caller: Address, shares: i128, total_deposited: i128)
    requires
        shares_add_up(m),
        0 < shares <= m.balance(caller),
    ensures
        shares_add_up(burned(m, caller, shares, total_deposited)),
{
    law_nobody_holds_more_than_all(m, caller);
    lemma_balance_change(m, caller, (m.balance(caller) - shares) as i128);
}

/// An accepted withdrawal keeps the shares adding up, whether it is paid at
/// once or queued.
pub proof fn law_withdraw_keeps_share_sum(m: Model, caller: Address, shares: i128, balance: i128)
    requires
        shares_add_up(m),
        withdraw_error(m, caller, shares, balance) is None || withdraw_error(
            m,
            caller,
            shares,
            balance,
        ) == Some(VaultError::WithdrawalQueued),
    ensures
        shares_add_up(after_withdraw(m, caller, shares)),
        shares_add_up(queued(m, caller, shares)),
{
    lemma_burn_keeps_share_sum(
        m,
        caller,
        shares,
        (m.total_deposited - redemption_for(m, shares)->0) as i128,
    );
}

/// An accepted emergency withdrawal keeps the shares adding up.
pub proof fn law_emergency_withdraw_keeps_share_sum(
    m: Model,
    caller: Address,
    shares: i128,
    balance: i128,
)
    requires
        shares_add_up(m),
        emergency_withdraw_error(m, caller, shares, balance) is None,
    ensures
        shares_add_up(after_emergency_withdraw(m, caller, shares, balance)),
{
    lemma_burn_keeps_share_sum(
        m,
        caller,
        shares,
        emergency_redeemed(m, caller, shares, balance).total_deposited,
    );
}

/// Nobody's shares but the caller's change in a deposit, a withdrawal or an
/// emergency withdrawal.
pub proof fn law_other_holders_are_unaffected(
    m: Model,
    caller: Address,
    other: Address,
    amount: i128,
    balance: i128,
)
    requires
        other != caller,
    ensures
        after_deposit(m, caller, amount).balance(other) == m.balance(other),
        after_withdraw(m, caller, amount).balance(other) == m.balance(other),
        queued(m, caller, amount).balance(other) == m.balance(other),
        after_emergency_withdraw(m, caller, amount, balance).balance(other) == m.balance(other),
{
}

/// A deposit never makes the shares that exist worth less.
pub proof fn law_deposit_never_lowers_share_price(
    m: Model,
    caller: Address,
    amount: i128,
    balance: i128,
)
    requires
        m.total_shares > 0,
        m.total_deposited >= 0,
        deposit_error(m, caller, amount, balance) is None,
    ensures
        price_not_lower(
            m,
            after_deposit(m, caller, amount),
        ),
{
    let s = m.total_shares as int;
    let d = m.total_deposited as int;
    let a = amount as int;
    let n = shares_for(m, amount)->0 as int;
    if d > 0 {
        assert(a * s >= 0) by (nonlinear_arith)
            requires
                a > 0,
                s > 0,
        ;
        lemma_floor(a * s, d);
        assert((d + a) * s >= d * (s + n)) by (nonlinear_arith)
            requires
                n * d <= a * s,
        ;
    } else {
        assert(d * (s + n) <= (d + a) * s) by (nonlinear_arith)
            requires
                d == 0,
                a > 0,
                s > 0,
        ;
    }
}

/// A withdrawal never makes the shares that are left worth less, whether it is
/// paid at once or queued.
pub proof fn law_withdraw_never_lowers_share_price(
    m: Model,
    caller: Address,
    shares: i128,
    balance: i128,
)
    requires
        m.total_shares > 0,
        m.total_deposited >= 0,
        withdraw_error(m, caller, shares, balance) is None || withdraw_error(
            m,
            caller,
            shares,
            balance,
        ) == Some(VaultError::WithdrawalQueued),
    ensures
        price_not_lower(m, after_withdraw(m, caller, shares)),
        price_not_lower(m, queued(m, caller, shares)),
{
    let s = m.total_shares as int;
    let d = m.total_deposited as int;
    let x = shares as int;
    let r = redemption_for(m, shares)->0 as int;
    assert(x * d >= 0) by (nonlinear_arith)
        requires
            x > 0,
            d >= 0,
    ;
    lemma_floor(x * d, s);
    assert((d - r) * s >= d * (s - x)) by (nonlinear_arith)
        requires
            r * s <= x * d,
    ;
}

/// Where the shares add up, the vault can always cover a redemption: the
/// tokens that shares are worth never exceed what the vault tracks.
pub proof fn law_redemptions_are_covered(m: Model, caller: Address, shares: i128, balance: i128)
    requires
        shares_add_up(m),
        m.total_deposited >= 0,
        0 < shares <= m.balance(caller),
        redemption_for(m, shares) is Some,
    ensures
        0 <= redemption_for(m, shares)->0 <= m.total_deposited,
        withdraw_error(m, caller, shares, balance) != Some(VaultError::InsufficientUnderlying),
{
    law_nobody_holds_more_than_all(m, caller);
    let s = m.total_shares as int;
    let d = m.total_deposited as int;
    let x = shares as int;
    let r = redemption_for(m, shares)->0 as int;
    assert(0 <= x * d <= s * d) by (nonlinear_arith)
        requires
            0 < x <= s,
            d >= 0,
    ;
    lemma_floor(x * d, s);
    assert(r <= d) by (nonlinear_arith)
        requires
            r * s <= x * d,
            x * d <= s * d,
            s > 0,
    ;
}

/// Whoever holds all shares redeems everything, and leaves an empty vault.
pub proof fn law_redeeming_all_shares_empties_the_vault(
    m: Model,
    caller: Address,
    balance: i128,
)
    requires
        m.total_deposited >= 0,
        withdraw_error(m, caller, m.total_shares, balance) is None,
    ensures
        withdraw_pending(m, caller, m.total_shares).redeem_amount == m.total_deposited,
        after_withdraw(m, caller, m.total_shares).total_shares == 0,
        after_withdraw(m, caller, m.total_shares).total_deposited == 0,
{
    let s = m.total_shares as int;
    let d = m.total_deposited as int;
    let r = redemption_for(m, m.total_shares)->0 as int;
    assert(s * d >= 0) by (nonlinear_arith)
        requires
            s > 0,
            d >= 0,
    ;
    lemma_floor(s * d, s);
    assert(r == d) by (nonlinear_arith)
        requires
            r * s <= s * d,
            s * d < r * s + s,
            s > 0,
    ;
}

/// Depositing and at once redeeming the new shares never gains anything, and
/// loses less than one token and the price of one share: at most one token
/// where a share is worth no more than a token.
pub proof fn law_round_trip_never_gains(
    m: Model,
    caller: Address,
    amount: i128,
    balance: i128,
)
    requires
        m.total_shares >= 0,
        m.total_deposited >= 0,
        m.total_shares == 0 ==> m.total_deposited == 0,
        deposit_error(m, caller, amount, balance) is None,
        redemption_for(
            after_deposit(m, caller, amount),
            deposit_pending(m, caller, amount).new_shares,
        ) is Some,
    ensures
        ({
            let p = deposit_pending(m, caller, amount);
            let after = after_deposit(m, caller, amount);
            let returned = redemption_for(after, p.new_shares)->0;
            &&& returned <= amount
            &&& m.total_deposited == 0 && m.total_shares == 0 ==> returned == amount
            &&& m.total_deposited > 0 ==> (amount - returned - 1) * after.total_shares
                < m.total_deposited
            &&& 0 < m.total_deposited <= after.total_shares ==> returned >= amount - 1
        }),
{
    let p = deposit_pending(m, caller, amount);
    let after = after_deposit(m, caller, amount);
    let s = m.total_shares as int;
    let d = m.total_deposited as int;
    let a = amount as int;
    let n = p.new_shares as int;
    let r = redemption_for(after, p.new_shares)->0 as int;
    assert(n * (d + a) >= 0) by (nonlinear_arith)
        requires
            n > 0,
            d >= 0,
            a > 0,
    ;
    lemma_floor(n * (d + a), s + n);
    if d > 0 {
        assert(a * s >= 0) by (nonlinear_arith)
            requires
                a > 0,
                s >= 0,
        ;
        lemma_floor(a * s, d);
        assert(r <= a) by (nonlinear_arith)
            requires
                n * d <= a * s,
                r * (s + n) <= n * (d + a),
                s + n > 0,
        ;
        assert((a - r - 1) * (s + n) < d) by (nonlinear_arith)
            requires
                a * s < n * d + d,
                n * (d + a) < r * (s + n) + (s + n),
        ;
        if d <= s + n {
            assert(a - r - 1 < 1) by (nonlinear_arith)
                requires
                    (a - r - 1) * (s + n) < d,
                    d <= s + n,
                    s + n > 0,
            ;
        }
    } else {
        assert(d == 0 && n == a);
        assert(r <= a) by (nonlinear_arith)
            requires
                r * (s + n) <= n * a,
                n == a,
                a > 0,
                s >= 0,
        ;
        if s == 0 {
            assert(r == a) by (nonlinear_arith)
                requires
                    n * a < r * n + n,
                    r <= a,
                    n > 0,
            ;
        }
    }
}

/// A deposit that completes under a cap leaves the vault within the cap.
pub proof fn law_deposits_stay_within_cap(m: Model, caller: Address, amount: i128, balance: i128)
    requires
        m.tvl_cap > 0,
        deposit_error(m, caller, amount, balance) is None,
    ensures
        after_deposit(m, caller, amount).total_deposited <= m.tvl_cap,
{
}

/// The cap and the whitelist have no say in withdrawals.
pub proof fn law_deposit_limits_do_not_bind_withdrawals(
    m: Model,
    cap: i128,
    min_deposit: i128,
    whitelist_enabled: bool,
    caller: Address,
    shares: i128,
    balance: i128,
)
    ensures
        withdraw_error(
            Model { tvl_cap: cap, min_deposit, whitelist_enabled, ..m },
            caller,
            shares,
            balance,
        ) == withdraw_error(m, caller, shares, balance),
{
}

/// What the vault tracks stays equal to the tokens that it holds, through a
/// deposit and through a withdrawal.
pub proof fn law_tracked_total_follows_balance(
    m: Model,
    caller: Address,
    amount: i128,
    balance: i128,
    balance_after: i128,
)
    ensures
        deposit_error(m, caller, amount, balance) is None && delta_error(
            balance_after - balance,
            amount,
        ) is None ==> after_deposit(m, caller, amount).total_deposited == balance_after,
        withdraw_error(m, caller, amount, balance) is None && delta_error(
            balance - balance_after,
            withdraw_pending(m, caller, amount).redeem_amount,
        ) is None ==> after_withdraw(m, caller, amount).total_deposited == balance_after,
{
}

/// A deposit whose transfer fails leaves no trace.
pub proof fn law_failed_deposit_leaves_no_trace(
    m: Model,
    caller: Address,
    amount: i128,
    balance: i128,
)
    requires
        deposit_error(m, caller, amount, balance) is None,
    ensures
        undone(
            Model { locked: true, ..minted(m, caller, amount) },
            caller,
            deposit_pending(m, caller, amount).undo,
        ) == m,
{
    let n = undone(
        Model { locked: true, ..minted(m, caller, amount) },
        caller,
        deposit_pending(m, caller, amount).undo,
    );
    assert(n.balances =~= m.balances);
    assert(n.user_checkpoints =~= m.user_checkpoints);
    assert(n.user_pending_yields =~= m.user_pending_yields);
}

/// A withdrawal whose transfer fails leaves no trace.
pub proof fn law_failed_withdrawal_leaves_no_trace(
    m: Model,
    caller: Address,
    shares: i128,
    balance: i128,
)
    requires
        withdraw_error(m, caller, shares, balance) is None,
    ensures
        undone(
            Model { locked: true, ..redeemed(m, caller, shares) },
            caller,
            withdraw_pending(m, caller, shares).undo,
        ) == m,
{
    let n = undone(
        Model { locked: true, ..redeemed(m, caller, shares) },
        caller,
        withdraw_pending(m, caller, shares).undo,
    );
    assert(n.balances =~= m.balances);
    assert(n.user_checkpoints =~= m.user_checkpoints);
    assert(n.user_pending_yields =~= m.user_pending_yields);
}

/// An emergency withdrawal whose transfer fails leaves no trace.
pub proof fn law_failed_emergency_withdrawal_leaves_no_trace(
    m: Model,
    caller: Address,
    shares: i128,
    balance: i128,
)
    requires
        emergency_withdraw_error(m, caller, shares, balance) is None,
    ensures
        undone(
            Model { locked: true, ..emergency_redeemed(m, caller, shares, balance) },
            caller,
            emergency_pending(m, caller, shares, balance).undo,
        ) == m,
{
    let n = undone(
        Model { locked: true, ..emergency_redeemed(m, caller, shares, balance) },
        caller,
        emergency_pending(m, caller, shares, balance).undo,
    );
    assert(n.balances =~= m.balances);
    assert(n.user_checkpoints =~= m.user_checkpoints);
    assert(n.user_pending_yields =~= m.user_pending_yields);
}

/// Where the shares add up, an emergency withdrawal never asks for more than
/// the vault holds, and every holder of all shares gets everything.
pub proof fn law_emergency_withdrawals_are_covered(
    m: Model,
    caller: Address,
    shares: i128,
    balance: i128,
)
    requires
        shares_add_up(m),
        balance >= 0,
        emergency_withdraw_error(m, caller, shares, balance) is None,
    ensures
        0 < emergency_pending(m, caller, shares, balance).redeem_amount <= balance,
        shares == m.total_shares ==> emergency_pending(m, caller, shares, balance).redeem_amount
            == balance,
        emergency_redeemed(m, caller, shares, balance).total_deposited >= 0,
{
    law_nobody_holds_more_than_all(m, caller);
    let s = m.total_shares as int;
    let b = balance as int;
    let x = shares as int;
    let r = emergency_redemption_for(m, shares, balance)->0 as int;
    assert(0 <= x * b <= s * b) by (nonlinear_arith)
        requires
            0 < x <= s,
            b >= 0,
    ;
    lemma_floor(x * b, s);
    assert(r <= b) by (nonlinear_arith)
        requires
            r * s <= x * b,
            x * b <= s * b,
            s > 0,
    ;
    if x == s {
        assert(r == b) by (nonlinear_arith)
            requires
                r <= b,
                x * b < r * s + s,
                x == s,
                s > 0,
        ;
    }
}

/// An emergency withdrawal is open exactly while the vault is paused, when a
/// withdrawal is not.
pub proof fn law_emergency_withdrawal_only_while_paused(
    m: Model,
    caller: Address,
    shares: i128,
    balance: i128,
)
    ensures
        !m.paused ==> emergency_withdraw_error(m, caller, shares, balance) is Some,
        m.paused ==> withdraw_error(m, caller, shares, balance) is Some,
        m.paused ==> withdraw_error(m, caller, shares, balance) != Some(
            VaultError::WithdrawalQueued,
        ),
{
}

} // verus!
