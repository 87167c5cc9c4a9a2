use crate::address::Address;
use vstd::prelude::*;

verus! {

/// Values kept by address. Where an address occurs more than once among the
/// entries, the last entry counts.
pub struct Table<V> {
    pub entries: Vec<(Address, V)>,
}

/// The map that a sequence of entries stands for.
pub open spec fn entries_map<V>(entries: Seq<(Address, V)>) -> Map<Address, V>
    decreases entries.len(),
{
    if entries.len() == 0 {
        Map::empty()
    } else {
        entries_map(entries.drop_last()).insert(entries.last().0, entries.last().1)
    }
}

/// An address that no entry holds is not in the map.
pub proof fn lemma_entries_absent<V>(entries: Seq<(Address, V)>, key: Address)
    requires
        forall|j: int| 0 <= j < entries.len() ==> entries[j].0 != key,
    ensures
        !entries_map(entries).contains_key(key),
    decreases entries.len(),
{
    if entries.len() > 0 {
        lemma_entries_absent(entries.drop_last(), key);
    }
}

/// The last entry of an address gives the address its value.
pub proof fn lemma_entries_last<V>(entries: Seq<(Address, V)>, key: Address, i: int)
    requires
        0 <= i < entries.len(),
        entries[i].0 == key,
        forall|j: int| i < j < entries.len() ==> entries[j].0 != key,
    ensures
        entries_map(entries).contains_key(key),
        entries_map(entries)[key] == entries[i].1,
    decreases entries.len(),
{
    if i < entries.len() - 1 {
        lemma_entries_last(entries.drop_last(), key, i);
    }
}

/// Replacing the last entry of an address replaces the address's value.
pub proof fn lemma_entries_update<V>(entries: Seq<(Address, V)>, key: Address, i: int, value: V)
    requires
        0 <= i < entries.len(),
        entries[i].0 == key,
        forall|j: int| i < j < entries.len() ==> entries[j].0 != key,
    ensures
        entries_map(entries.update(i, (key, value))) == entries_map(entries).insert(key, value),
    decreases entries.len(),
{
    let updated = entries.update(i, (key, value));
    if i < entries.len() - 1 {
        lemma_entries_update(entries.drop_last(), key, i, value);
        assert(updated.drop_last() =~= entries.drop_last().update(i, (key, value)));
        assert(entries_map(updated) =~= entries_map(entries).insert(key, value));
    } else {
        assert(updated.drop_last() =~= entries.drop_last());
        assert(entries_map(updated) =~= entries_map(entries).insert(key, value));
    }
}

impl<V> Table<V> {
    /// The map from addresses to values that the table holds.
    pub open spec fn model(&self) -> Map<Address, V> {
        entries_map(self.entries@)
    }

    /// A table that holds nothing.
    pub fn new() -> (r: Table<V>)
        ensures
            r.model() == Map::<Address, V>::empty(),
    {
        Table { entries: Vec::new() }
    }

    /// The place of the entry that gives an address its value.
    pub fn find(&self, key: &Address) -> (r: Option<usize>)
        ensures
            match r {
                Some(i) => {
                    &&& i < self.entries@.len()
                    &&& self.entries@[i as int].0 == *key
                    &&& forall|j: int| i < j < self.entries@.len() ==> self.entries@[j].0 != *key
                    &&& self.model().contains_key(*key)
                    &&& self.model()[*key] == self.entries@[i as int].1
                },
                None => !self.model().contains_key(*key),
            },
    {
        let mut i: usize = self.entries.len();
        while i > 0
            invariant
                i <= self.entries@.len(),
                forall|j: int| i <= j < self.entries@.len() ==> self.entries@[j].0 != *key,
            decreases i,
        {
            i -= 1;
            if self.entries[i].0.same(key) {
                proof {
                    lemma_entries_last(self.entries@, *key, i as int);
                }
                return Some(i);
            }
        }
        proof {
            lemma_entries_absent(self.entries@, *key);
        }
        None
    }

    /// The value of an address, if it has one.
    pub fn get(&self, key: &Address) -> (r: Option<&V>)
        ensures
            match r {
                Some(v) => self.model().contains_key(*key) && self.model()[*key] == *v,
                None => !self.model().contains_key(*key),
            },
    {
        match self.find(key) {
            Some(i) => Some(&self.entries[i].1),
            None => None,
        }
    }

    /// Gives an address a value, in place of the one it had.
    pub fn put(&mut self, key: Address, value: V)
        ensures
            final(self).model() == old(self).model().insert(key, value),
    {
        match self.find(&key) {
            Some(i) => {
                proof {
                    lemma_entries_update(self.entries@, key, i as int, value);
                }
                self.entries.set(i, (key, value));
            },
            None => {
                self.entries.push((key, value));
                assert(self.entries@.drop_last() =~= old(self).entries@);
            },
        }
    }
}

} // verus!
