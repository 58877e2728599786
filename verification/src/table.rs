//! A small keyed table: the storage relations of the engine are held in these.

use vstd::prelude::*;
use crate::primitives::{CurrencyId, TradingPair};

verus! {

/// A key of a [`Table`]: a plain value that can be compared for equality.
pub trait Key: Copy + Sized {
    /// Whether the two keys are the same.
    fn same(&self, other: &Self) -> (r: bool)
        ensures
            r == (*self == *other),
    ;
}

impl Key for u32 {
    fn same(&self, other: &u32) -> (r: bool) {
        *self == *other
    }
}

impl Key for u64 {
    fn same(&self, other: &u64) -> (r: bool) {
        *self == *other
    }
}

impl Key for CurrencyId {
    fn same(&self, other: &CurrencyId) -> (r: bool) {
        *self == *other
    }
}

impl Key for TradingPair {
    fn same(&self, other: &TradingPair) -> (r: bool) {
        *self == *other
    }
}

/// The map that a sequence of entries stands for: a later entry replaces an earlier
/// one with the same key.
pub open spec fn map_of<K, V>(entries: Seq<(K, V)>) -> Map<K, V>
    decreases entries.len(),
{
    if entries.len() == 0 {
        Map::empty()
    } else {
        map_of(entries.drop_last()).insert(entries.last().0, entries.last().1)
    }
}

/// The value that a map holds for a key, if any.
pub open spec fn lookup<K, V>(map: Map<K, V>, key: K) -> Option<V> {
    if map.contains_key(key) {
        Some(map[key])
    } else {
        None
    }
}

/// Whether no key occurs twice among the entries.
pub open spec fn distinct_keys<K, V>(entries: Seq<(K, V)>) -> bool {
    forall|i: int, j: int| 0 <= i < j < entries.len() ==> entries[i].0 != entries[j].0
}

/// Replacing the value of an entry replaces the value that the map holds for the
/// entry's key, where no key occurs twice.
pub proof fn lemma_map_of_update<K, V>(entries: Seq<(K, V)>, i: int, value: V)
    requires
        0 <= i < entries.len(),
        distinct_keys(entries),
    ensures
        map_of(entries.update(i, (entries[i].0, value))) == map_of(entries).insert(
            entries[i].0,
            value,
        ),
    decreases entries.len(),
{
    let key = entries[i].0;
    let updated = entries.update(i, (key, value));
    if i == entries.len() - 1 {
        assert(updated.drop_last() == entries.drop_last());
        assert(map_of(updated) =~= map_of(entries).insert(key, value));
    } else {
        let rest = entries.drop_last();
        assert(updated.drop_last() == rest.update(i, (rest[i].0, value)));
        assert(distinct_keys(rest)) by {
            assert forall|a: int, b: int| 0 <= a < b < rest.len() implies rest[a].0 != rest[b].0 by {
                assert(entries[a].0 != entries[b].0);
            }
        }
        lemma_map_of_update(rest, i, value);
        assert(entries.last().0 != key);
        assert(map_of(updated) =~= map_of(entries).insert(key, value));
    }
}

/// A finite map from keys to values.
pub struct Table<K, V> {
    entries: Vec<(K, V)>,
}

impl<K: Key, V: Copy> View for Table<K, V> {
    type V = Map<K, V>;

    closed spec fn view(&self) -> Map<K, V> {
        map_of(self.entries@)
    }
}

impl<K, V> Table<K, V> {
    #[verifier::type_invariant]
    spec fn well_formed(self) -> bool {
        distinct_keys(self.entries@)
    }
}

impl<K: Key, V: Copy> Table<K, V> {
    /// The value held for `key`, if any.
    pub open spec fn spec_get(&self, key: K) -> Option<V> {
        lookup(self@, key)
    }

    /// The table that holds nothing.
    pub fn new() -> (r: Table<K, V>)
        ensures
            r@ == Map::<K, V>::empty(),
    {
        Table { entries: Vec::new() }
    }

    /// Holds `value` for `key` from now on.
    pub fn insert(&mut self, key: K, value: V)
        ensures
            final(self)@ == old(self)@.insert(key, value),
    {
        proof {
            use_type_invariant(&*self);
        }
        let mut entries: Vec<(K, V)> = Vec::new();
        core::mem::swap(&mut entries, &mut self.entries);
        let mut i: usize = 0;
        while i < entries.len()
            invariant
                i <= entries.len(),
                entries == old(self).entries,
                distinct_keys(entries@),
                forall|j: int| 0 <= j < i ==> entries@[j].0 != key,
            decreases entries.len() - i,
        {
            if entries[i].0.same(&key) {
                proof {
                    lemma_map_of_update(entries@, i as int, value);
                }
                entries[i] = (key, value);
                self.entries = entries;
                return ;
            }
            i = i + 1;
        }
        entries.push((key, value));
        assert(entries@.drop_last() == old(self).entries@);
        self.entries = entries;
    }

    /// The value held for `key`, if any.
    pub fn get(&self, key: K) -> (r: Option<V>)
        ensures
            r == self.spec_get(key),
    {
        let mut i: usize = self.entries.len();
        assert(self.entries@.take(i as int) == self.entries@);
        while i > 0
            invariant
                i <= self.entries.len(),
                lookup(map_of(self.entries@.take(i as int)), key) == lookup(
                    map_of(self.entries@),
                    key,
                ),
            decreases i,
        {
            assert(self.entries@.take(i as int).drop_last() == self.entries@.take(i - 1));
            i = i - 1;
            if self.entries[i].0.same(&key) {
                return Some(self.entries[i].1);
            }
        }
        assert(self.entries@.take(0).len() == 0);
        None
    }
}

} // verus!
