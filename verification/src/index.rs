//! Ordered indices of position ids, filed under a pair of keys.

use vstd::prelude::*;
use crate::primitives::PositionId;
use crate::table::Key;

verus! {

/// The ids filed under one pair of keys, in the order in which they are traversed.
pub struct IndexEntry<A, B> {
    pub major: A,
    pub minor: B,
    pub ids: Vec<PositionId>,
}

/// The place of the first entry with the two keys, if there is one.
pub open spec fn entry_of<A, B>(entries: Seq<IndexEntry<A, B>>, major: A, minor: B) -> Option<int>
    decreases entries.len(),
{
    if entries.len() == 0 {
        None
    } else {
        match entry_of(entries.drop_last(), major, minor) {
            Some(i) => Some(i),
            None => if entries.last().major == major && entries.last().minor == minor {
                Some(entries.len() - 1)
            } else {
                None
            },
        }
    }
}

/// The ids of all entries with the major key, entry after entry.
pub open spec fn ids_under<A, B>(entries: Seq<IndexEntry<A, B>>, major: A) -> Seq<PositionId>
    decreases entries.len(),
{
    if entries.len() == 0 {
        Seq::empty()
    } else if entries.last().major == major {
        ids_under(entries.drop_last(), major) + entries.last().ids@
    } else {
        ids_under(entries.drop_last(), major)
    }
}

/// An index from pairs of keys to ordered sequences of position ids, which can be
/// traversed by its major key.
pub struct PositionIndex<A, B> {
    pub entries: Vec<IndexEntry<A, B>>,
}

impl<A: Key, B: Key> PositionIndex<A, B> {
    /// The ids filed under `major` with any minor key: entry after entry in the
    /// order in which the entries were first filed, and within an entry in its own
    /// order.
    pub open spec fn spec_ids_under(&self, major: A) -> Seq<PositionId> {
        ids_under(self.entries@, major)
    }

    /// The index that holds nothing.
    pub fn new() -> (r: PositionIndex<A, B>)
        ensures
            r.entries@.len() == 0,
    {
        PositionIndex { entries: Vec::new() }
    }

    /// Files `ids` under the two keys, in place of what was filed under them.
    pub fn insert(&mut self, major: A, minor: B, ids: Vec<PositionId>)
        ensures
            final(self).entries@ == match entry_of(old(self).entries@, major, minor) {
                Some(i) => old(self).entries@.update(i, (IndexEntry { major, minor, ids })),
                None => old(self).entries@.push((IndexEntry { major, minor, ids })),
            },
    {
        let mut i: usize = 0;
        while i < self.entries.len()
            invariant
                i <= self.entries.len(),
                self.entries == old(self).entries,
                entry_of(self.entries@.take(i as int), major, minor) is None,
            decreases self.entries.len() - i,
        {
            assert(self.entries@.take(i + 1).drop_last() == self.entries@.take(i as int));
            if self.entries[i].major.same(&major) && self.entries[i].minor.same(&minor) {
                proof {
                    lemma_entry_found(self.entries@, major, minor, i + 1);
                }
                self.entries.set(i, IndexEntry { major, minor, ids });
                return ;
            }
            i = i + 1;
        }
        assert(self.entries@.take(i as int) == self.entries@);
        self.entries.push(IndexEntry { major, minor, ids });
    }

    /// The ids filed under `major` with any minor key.
    pub fn ids_under(&self, major: A) -> (r: Vec<PositionId>)
        ensures
            r@ == self.spec_ids_under(major),
    {
        let mut found: Vec<PositionId> = Vec::new();
        let mut i: usize = 0;
        while i < self.entries.len()
            invariant
                i <= self.entries.len(),
                found@ == ids_under(self.entries@.take(i as int), major),
            decreases self.entries.len() - i,
        {
            assert(self.entries@.take(i + 1).drop_last() == self.entries@.take(i as int));
            if self.entries[i].major.same(&major) {
                let ids = &self.entries[i].ids;
                let ghost before = found@;
                let mut j: usize = 0;
                while j < ids.len()
                    invariant
                        j <= ids.len(),
                        found@ == before + ids@.take(j as int),
                    decreases ids.len() - j,
                {
                    found.push(ids[j]);
                    assert(ids@.take(j + 1) == ids@.take(j as int).push(ids@[j as int]));
                    j = j + 1;
                }
                assert(ids@.take(j as int) == ids@);
            }
            i = i + 1;
        }
        assert(self.entries@.take(i as int) == self.entries@);
        found
    }
}

/// The first entry with the two keys among the first `n` entries is the first
/// among them all.
pub proof fn lemma_entry_found<A, B>(
    entries: Seq<IndexEntry<A, B>>,
    major: A,
    minor: B,
    n: int,
)
    requires
        0 <= n <= entries.len(),
        entry_of(entries.take(n), major, minor) is Some,
    ensures
        entry_of(entries, major, minor) == entry_of(entries.take(n), major, minor),
    decreases entries.len() - n,
{
    if n == entries.len() {
        assert(entries.take(n) == entries);
    } else {
        assert(entries.take(n + 1).drop_last() == entries.take(n));
        lemma_entry_found(entries, major, minor, n + 1);
    }
}

} // verus!
