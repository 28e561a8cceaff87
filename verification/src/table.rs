//! A table from keys to values, kept as a list of entries.
use soroban_sdk::Address;
use vstd::prelude::*;

use crate::host;

verus! {

/// A key that can be looked up: two keys compare the same exactly when they are
/// equal.
pub trait TableKey: Sized {
    fn same(&self, other: &Self) -> (same: bool)
        ensures
            same == (*self == *other),
    ;
}

impl TableKey for Address {
    fn same(&self, other: &Self) -> (same: bool) {
        host::same_address(self, other)
    }
}

/// One user's holding of one asset.
#[derive(Debug, PartialEq)]
pub struct AssetKey {
    pub user: Address,
    pub code: soroban_sdk::String,
}

impl TableKey for AssetKey {
    fn same(&self, other: &Self) -> (same: bool) {
        host::same_address(&self.user, &other.user) && host::same_text(&self.code, &other.code)
    }
}

/// A map from `K` to `V`; no two entries have the same key.
#[verifier::reject_recursive_types(K)]
pub struct Table<K, V> {
    entries: Vec<(K, V)>,
}

impl<K, V> View for Table<K, V> {
    type V = Map<K, V>;

    closed spec fn view(&self) -> Map<K, V> {
        Map::new(
            |key: K| exists|i: int| 0 <= i < self.entries@.len() && #[trigger] self.entries@[i].0 == key,
            |key: K|
                self.entries@[choose|i: int|
                    0 <= i < self.entries@.len() && #[trigger] self.entries@[i].0 == key].1,
        )
    }
}

impl<K, V> Table<K, V> {
    /// No two entries have the same key.
    pub closed spec fn wf(&self) -> bool {
        forall|i: int, j: int|
            0 <= i < j < self.entries@.len() ==> (#[trigger] self.entries@[i]).0 != (
            #[trigger] self.entries@[j]).0
    }

    /// An entry of the list is an entry of the map.
    proof fn lemma_entry(&self, i: int)
        requires
            self.wf(),
            0 <= i < self.entries@.len(),
        ensures
            self@.contains_key(self.entries@[i].0),
            self@[self.entries@[i].0] == self.entries@[i].1,
    {
        let key = self.entries@[i].0;
        let at = choose|j: int| 0 <= j < self.entries@.len() && #[trigger] self.entries@[j].0 == key;
        assert(self.entries@[i].0 == key);
        assert(at == i);
    }

    /// The empty table.
    pub fn new() -> (table: Self)
        ensures
            table.wf(),
            table@ == Map::<K, V>::empty(),
    {
        let table = Table { entries: Vec::new() };
        assert(table@ =~= Map::<K, V>::empty());
        table
    }
}

impl<K: TableKey, V> Table<K, V> {
    /// The position of `key`, if it is in the table.
    fn find(&self, key: &K) -> (found: Option<usize>)
        ensures
            match found {
                Some(i) => i < self.entries@.len() && self.entries@[i as int].0 == *key,
                None => forall|j: int|
                    0 <= j < self.entries@.len() ==> (#[trigger] self.entries@[j]).0 != *key,
            },
    {
        let mut i: usize = 0;
        while i < self.entries.len()
            invariant
                i <= self.entries@.len(),
                forall|j: int| 0 <= j < i ==> (#[trigger] self.entries@[j]).0 != *key,
            decreases self.entries@.len() - i,
        {
            if self.entries[i].0.same(key) {
                return Some(i);
            }
            i = i + 1;
        }
        None
    }

    /// The value of `key`.
    pub fn get(&self, key: &K) -> (value: Option<&V>)
        requires
            self.wf(),
        ensures
            value == (if self@.contains_key(*key) {
                Some(&self@[*key])
            } else {
                None
            }),
    {
        match self.find(key) {
            Some(i) => {
                proof {
                    self.lemma_entry(i as int);
                }
                Some(&self.entries[i].1)
            },
            None => None,
        }
    }

    /// Takes the entry of `key` out of the table.
    pub fn take(&mut self, key: &K) -> (value: Option<V>)
        requires
            old(self).wf(),
        ensures
            final(self).wf(),
            final(self)@ == old(self)@.remove(*key),
            value == (if old(self)@.contains_key(*key) {
                Some(old(self)@[*key])
            } else {
                None
            }),
    {
        match self.find(key) {
            Some(i) => {
                proof {
                    self.lemma_entry(i as int);
                }
                let ghost before = *self;
                let entry = self.entries.swap_remove(i);
                proof {
                    lemma_swap_removed(before, *self, i as int);
                }
                Some(entry.1)
            },
            None => {
                assert(self@.remove(*key) =~= self@);
                None
            },
        }
    }

    /// Gives `key` a value, in place of the one it had.
    pub fn insert(&mut self, key: K, value: V)
        requires
            old(self).wf(),
        ensures
            final(self).wf(),
            final(self)@ == old(self)@.insert(key, value),
    {
        let _ = self.take(&key);
        let ghost before = *self;
        self.entries.push((key, value));
        proof {
            lemma_pushed(before, *self, key, value);
            assert(old(self)@.remove(key).insert(key, value) =~= old(self)@.insert(key, value));
        }
    }
}

proof fn lemma_swap_removed<K, V>(before: Table<K, V>, after: Table<K, V>, i: int)
    requires
        before.wf(),
        0 <= i < before.entries@.len(),
        after.entries@ == before.entries@.update(i, before.entries@.last()).drop_last(),
    ensures
        after.wf(),
        after@ == before@.remove(before.entries@[i].0),
{
    let key = before.entries@[i].0;
    let last = before.entries@.len() - 1;
    assert forall|k: K| after@.contains_key(k) <==> before@.remove(key).contains_key(k) by {
        if before@.remove(key).contains_key(k) {
            let j = choose|j: int|
                0 <= j < before.entries@.len() && #[trigger] before.entries@[j].0 == k;
            if j == last {
                assert(after.entries@[i].0 == k);
            } else {
                assert(after.entries@[j].0 == k);
            }
        }
        if after@.contains_key(k) {
            let j = choose|j: int|
                0 <= j < after.entries@.len() && #[trigger] after.entries@[j].0 == k;
            if j == i {
                assert(before.entries@[last].0 == k);
            } else {
                assert(before.entries@[j].0 == k);
            }
        }
    }
    assert forall|k: K| after@.contains_key(k) implies after@[k] == before@.remove(key)[k] by {
        let j = choose|j: int| 0 <= j < after.entries@.len() && #[trigger] after.entries@[j].0 == k;
        if j == i {
            before.lemma_entry(last);
        } else {
            before.lemma_entry(j);
        }
    }
    assert(after@ =~= before@.remove(key));
}

proof fn lemma_pushed<K, V>(before: Table<K, V>, after: Table<K, V>, key: K, value: V)
    requires
        before.wf(),
        !before@.contains_key(key),
        after.entries@ == before.entries@.push((key, value)),
    ensures
        after.wf(),
        after@ == before@.insert(key, value),
{
    let last = before.entries@.len() as int;
    assert forall|j: int| 0 <= j < last implies (#[trigger] before.entries@[j]).0 != key by {
        before.lemma_entry(j);
    }
    assert(after.wf());
    assert(after.entries@[last].0 == key);
    assert forall|k: K| after@.contains_key(k) <==> before@.insert(key, value).contains_key(k) by {
        if before@.contains_key(k) {
            let j = choose|j: int|
                0 <= j < before.entries@.len() && #[trigger] before.entries@[j].0 == k;
            assert(after.entries@[j].0 == k);
        }
        if after@.contains_key(k) && k != key {
            let j = choose|j: int|
                0 <= j < after.entries@.len() && #[trigger] after.entries@[j].0 == k;
            assert(before.entries@[j].0 == k);
        }
    }
    assert forall|k: K| after@.contains_key(k) implies after@[k] == before@.insert(key, value)[k] by {
        let j = choose|j: int| 0 <= j < after.entries@.len() && #[trigger] after.entries@[j].0 == k;
        after.lemma_entry(j);
        if j != last {
            before.lemma_entry(j);
        }
    }
    assert(after@ =~= before@.insert(key, value));
}

} // verus!
