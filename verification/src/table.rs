use std::collections::BTreeMap;
use vstd::prelude::*;
use vstd::std_specs::btree::group_btree_axioms;

verus! {

broadcast use group_btree_axioms;

/// A keyed collection of storage entries.
#[derive(Clone, Debug)]
pub struct Table<V> {
    entries: BTreeMap<u64, V>,
}

impl<V> View for Table<V> {
    type V = Map<u64, V>;

    closed spec fn view(&self) -> Map<u64, V> {
        self.entries@
    }
}

impl<V> Table<V> {
    /// A table without entries.
    pub fn new() -> (table: Self)
        ensures
            table@ == Map::<u64, V>::empty(),
    {
        Table { entries: BTreeMap::new() }
    }

    /// Whether an entry is stored under `key`.
    pub fn has(&self, key: u64) -> (found: bool)
        ensures
            found == self@.contains_key(key),
    {
        self.entries.contains_key(&key)
    }

    /// The entry stored under `key`, to look at.
    pub fn peek(&self, key: u64) -> (entry: Option<&V>)
        ensures
            match entry {
                Some(value) => self@.contains_key(key) && *value == self@[key],
                None => !self@.contains_key(key),
            },
    {
        self.entries.get(&key)
    }

    /// Stores `value` under `key`, replacing what was there.
    pub fn set(&mut self, key: u64, value: V)
        ensures
            final(self)@ == old(self)@.insert(key, value),
    {
        self.entries.insert(key, value);
    }

    /// Removes the entry under `key` and hands it out.
    pub fn take(&mut self, key: u64) -> (entry: Option<V>)
        ensures
            final(self)@ == old(self)@.remove(key),
            entry == (if old(self)@.contains_key(key) {
                Some(old(self)@[key])
            } else {
                None
            }),
    {
        self.entries.remove(&key)
    }

    /// Removes the entry under `key`, if there is one.
    pub fn remove(&mut self, key: u64)
        ensures
            final(self)@ == old(self)@.remove(key),
    {
        self.entries.remove(&key);
    }
}

impl<V: Copy> Table<V> {
    /// The entry stored under `key`.
    pub fn get(&self, key: u64) -> (entry: Option<V>)
        ensures
            entry == (if self@.contains_key(key) {
                Some(self@[key])
            } else {
                None
            }),
    {
        match self.entries.get(&key) {
            Some(value) => Some(*value),
            None => None,
        }
    }
}

} // verus!
