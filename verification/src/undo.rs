use crate::address::Address;
use crate::env::{Env, Model};
use crate::storage::{exit_reentrancy_guard, set_total_deposited, set_total_shares};
use crate::table::Table;
use vstd::prelude::*;

verus! {

/// What a change of somebody's shares overwrites, kept so that it can be
/// undone.
#[derive(Clone, Copy, Debug, PartialEq, Eq, Structural)]
pub struct Undo {
    pub balance: Option<i128>,
    pub checkpoint: Option<i128>,
    pub stored_yield: Option<i128>,
    pub total_shares: i128,
    pub total_deposited: i128,
}

/// The entry of a table, if it has one under `key`.
pub open spec fn entry_of(table: Map<u64, i128>, key: u64) -> Option<i128> {
    if table.contains_key(key) {
        Some(table[key])
    } else {
        None
    }
}

/// A table with the entry under `key` put back.
pub open spec fn with_entry(table: Map<u64, i128>, key: u64, entry: Option<i128>) -> Map<
    u64,
    i128,
> {
    match entry {
        Some(value) => table.insert(key, value),
        None => table.remove(key),
    }
}

/// What a change of the shares of `caller` overwrites.
pub open spec fn undo_of(m: Model, caller: Address) -> Undo {
    Undo {
        balance: entry_of(m.balances, caller.id),
        checkpoint: entry_of(m.user_checkpoints, caller.id),
        stored_yield: entry_of(m.user_pending_yields, caller.id),
        total_shares: m.total_shares,
        total_deposited: m.total_deposited,
    }
}

/// The vault with the shares of `caller` and the totals put back.
pub open spec fn undone(m: Model, caller: Address, undo: Undo) -> Model {
    Model {
        locked: false,
        balances: with_entry(m.balances, caller.id, undo.balance),
        user_checkpoints: with_entry(m.user_checkpoints, caller.id, undo.checkpoint),
        user_pending_yields: with_entry(m.user_pending_yields, caller.id, undo.stored_yield),
        total_shares: undo.total_shares,
        total_deposited: undo.total_deposited,
        ..m
    }
}

/// Records what a change of the shares of `caller` overwrites.
pub fn record_undo(env: &Env, caller: Address) -> (undo: Undo)
    ensures
        undo == undo_of(env@, caller),
{
    Undo {
        balance: env.balances.get(caller.id),
        checkpoint: env.user_checkpoints.get(caller.id),
        stored_yield: env.user_pending_yields.get(caller.id),
        total_shares: env.total_shares,
        total_deposited: env.total_deposited,
    }
}

/// Puts an entry of a table back.
pub fn put_back(table: &mut Table<i128>, key: u64, entry: Option<i128>)
    ensures
        final(table)@ == with_entry(old(table)@, key, entry),
{
    match entry {
        Some(value) => table.set(key, value),
        None => table.remove(key),
    }
}

/// Puts back what a change of the shares of `caller` has overwritten, and
/// releases the lock.
pub fn undo_shares(env: &mut Env, caller: Address, undo: Undo)
    ensures
        final(env)@ == undone(old(env)@, caller, undo),
{
    put_back(&mut env.balances, caller.id, undo.balance);
    put_back(&mut env.user_checkpoints, caller.id, undo.checkpoint);
    put_back(&mut env.user_pending_yields, caller.id, undo.stored_yield);
    set_total_shares(env, undo.total_shares);
    set_total_deposited(env, undo.total_deposited);
    exit_reentrancy_guard(env);
}

} // verus!
