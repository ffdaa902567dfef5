//! A small table keyed by address.

use crate::address::Address;
use vstd::prelude::*;

verus! {

/// What a list of entries maps each address to: a later entry for an address
/// replaces an earlier one.
spec fn entries_map<V>(entries: Seq<(Address, V)>) -> Map<Seq<char>, V>
    decreases entries.len(),
{
    if entries.len() == 0 {
        Map::empty()
    } else {
        entries_map(entries.drop_last()).insert(entries.last().0@, entries.last().1)
    }
}

/// An address that no entry from `from` onwards names is mapped as the
/// entries before `from` map it.
proof fn lemma_entries_map_skips<V>(entries: Seq<(Address, V)>, from: int, key: Seq<char>)
    requires
        0 <= from <= entries.len(),
        forall|j: int| from <= j < entries.len() ==> (#[trigger] entries[j]).0@ != key,
    ensures
        entries_map(entries).contains_key(key) == entries_map(
            entries.subrange(0, from),
        ).contains_key(key),
        entries_map(entries).contains_key(key) ==> entries_map(entries)[key] == entries_map(
            entries.subrange(0, from),
        )[key],
    decreases entries.len() - from,
{
    if from == entries.len() {
        assert(entries.subrange(0, from) =~= entries);
    } else {
        let shorter = entries.drop_last();
        assert(entries.last() == entries[entries.len() - 1]);
        assert forall|j: int| from <= j < shorter.len() implies (#[trigger] shorter[j]).0@
            != key by {
            assert(shorter[j] == entries[j]);
        }
        lemma_entries_map_skips(shorter, from, key);
        assert(shorter.subrange(0, from) =~= entries.subrange(0, from));
    }
}

/// Replacing the last entry that names an address maps that address to the
/// new value and leaves every other address as it was.
proof fn lemma_entries_map_update<V>(
    entries: Seq<(Address, V)>,
    at: int,
    key: Address,
    value: V,
)
    requires
        0 <= at < entries.len(),
        entries[at].0@ == key@,
        forall|j: int| at < j < entries.len() ==> (#[trigger] entries[j]).0@ != key@,
    ensures
        entries_map(entries.update(at, (key, value))) == entries_map(entries).insert(key@, value),
    decreases entries.len(),
{
    let updated = entries.update(at, (key, value));
    if at == entries.len() - 1 {
        assert(updated.drop_last() =~= entries.drop_last());
        assert(entries_map(updated) =~= entries_map(entries).insert(key@, value));
    } else {
        let shorter = entries.drop_last();
        assert(entries.last() == entries[entries.len() - 1]);
        assert forall|j: int| at < j < shorter.len() implies (#[trigger] shorter[j]).0@
            != key@ by {
            assert(shorter[j] == entries[j]);
        }
        lemma_entries_map_update(shorter, at, key, value);
        assert(updated.drop_last() =~= shorter.update(at, (key, value)));
        assert(updated.last() == entries.last());
        assert(entries_map(updated) =~= entries_map(entries).insert(key@, value));
    }
}

/// A table from addresses to values of one type.
pub struct AddressTable<V> {
    entries: Vec<(Address, V)>,
}

impl<V> View for AddressTable<V> {
    type V = Map<Seq<char>, V>;

    closed spec fn view(&self) -> Map<Seq<char>, V> {
        entries_map(self.entries@)
    }
}

impl<V> AddressTable<V> {
    /// The table that maps no address.
    pub fn new() -> (table: Self)
        ensures
            table@ == Map::<Seq<char>, V>::empty(),
    {
        AddressTable { entries: Vec::new() }
    }

    /// The position of the last entry that names `key`, if there is one.
    fn position(&self, key: &Address) -> (found: Option<usize>)
        ensures
            match found {
                Some(at) => {
                    &&& at < self.entries@.len()
                    &&& self.entries@[at as int].0@ == key@
                    &&& forall|j: int|
                        at < j < self.entries@.len() ==> (#[trigger] self.entries@[j]).0@ != key@
                },
                None => forall|j: int|
                    0 <= j < self.entries@.len() ==> (#[trigger] self.entries@[j]).0@ != key@,
            },
    {
        let mut at: usize = self.entries.len();
        while at > 0
            invariant
                at <= self.entries@.len(),
                forall|j: int|
                    at <= j < self.entries@.len() ==> (#[trigger] self.entries@[j]).0@ != key@,
            decreases at,
        {
            at = at - 1;
            if self.entries[at].0.same_as(key) {
                return Some(at);
            }
        }
        None
    }

    /// The value stored for `key`, if there is one.
    pub fn get(&self, key: &Address) -> (found: Option<&V>)
        ensures
            match found {
                Some(value) => self@.contains_key(key@) && *value == self@[key@],
                None => !self@.contains_key(key@),
            },
    {
        match self.position(key) {
            Some(at) => {
                proof {
                    let upto = self.entries@.subrange(0, at + 1);
                    lemma_entries_map_skips(self.entries@, at + 1, key@);
                    assert(upto.last() == self.entries@[at as int]);
                }
                Some(&self.entries[at].1)
            },
            None => {
                proof {
                    lemma_entries_map_skips(self.entries@, 0, key@);
                    assert(self.entries@.subrange(0, 0).len() == 0);
                }
                None
            },
        }
    }

    /// Stores `value` for `key`, in place of what was stored for it before.
    pub fn insert(&mut self, key: Address, value: V)
        ensures
            final(self)@ == old(self)@.insert(key@, value),
    {
        match self.position(&key) {
            Some(at) => {
                proof {
                    lemma_entries_map_update(self.entries@, at as int, key, value);
                }
                self.entries.set(at, (key, value));
            },
            None => {
                self.entries.push((key, value));
                assert(self.entries@.drop_last() =~= old(self).entries@);
            },
        }
    }
}

} // verus!
