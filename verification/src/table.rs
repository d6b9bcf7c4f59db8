//! An ordered table: a finite map whose entries are kept, and handed out, in
//! ascending order of their keys.

use vstd::prelude::*;
use crate::ids::Key;

verus! {

/// Whether the keys of a sequence stand in strictly ascending order.
pub open spec fn ascending<K: Key>(keys: Seq<K>) -> bool {
    forall|i: int, j: int| 0 <= i < j < keys.len() ==> keys[i].rank() < keys[j].rank()
}

/// Whether `keys` lists exactly the members of `dom`, each once, in ascending
/// order. At most one sequence does so for a given set.
pub open spec fn lists_ascending<K: Key>(keys: Seq<K>, dom: Set<K>) -> bool {
    &&& ascending(keys)
    &&& forall|k: K| keys.contains(k) <==> dom.contains(k)
}

struct Entry<K, V> {
    key: K,
    value: V,
}

spec fn keys_of<K, V>(entries: Seq<Entry<K, V>>) -> Seq<K> {
    entries.map_values(|e: Entry<K, V>| e.key)
}

spec fn values_of<K, V>(entries: Seq<Entry<K, V>>) -> Seq<V> {
    entries.map_values(|e: Entry<K, V>| e.value)
}

/// A finite map from keys to values, ordered by the rank of its keys.
pub struct Table<K: Key, V> {
    entries: Vec<Entry<K, V>>,
}

impl<K: Key, V> View for Table<K, V> {
    type V = Map<K, V>;

    /// The map that the table holds.
    open spec fn view(&self) -> Map<K, V> {
        Map::new(
            |k: K| self.keys().contains(k),
            |k: K| self.values()[self.keys().index_of(k)],
        )
    }
}

impl<K: Key, V> Table<K, V> {
    #[verifier::type_invariant]
    spec fn ordered(self) -> bool {
        ascending(self.keys())
    }

    /// The keys, in the order in which the table hands them out.
    pub closed spec fn keys(self) -> Seq<K> {
        keys_of(self.entries@)
    }

    /// The values, each at the position of its key.
    pub closed spec fn values(self) -> Seq<V> {
        values_of(self.entries@)
    }

    /// What holds of every table: the keys ascend strictly and each has its
    /// value. Every operation states it of the tables it returns or leaves.
    pub open spec fn sound(self) -> bool {
        &&& ascending(self.keys())
        &&& self.keys().len() == self.values().len()
    }

    /// In a sound table the key at a position maps to the value there.
    pub proof fn lemma_entry(self, i: int)
        requires
            self.sound(),
            0 <= i < self.keys().len(),
        ensures
            self@.contains_key(self.keys()[i]),
            self@[self.keys()[i]] == self.values()[i],
    {
        let k = self.keys()[i];
        assert(self.keys().contains(k));
        let j = self.keys().index_of(k);
        assert(0 <= j < self.keys().len() && self.keys()[j] == k);
        if j < i {
            assert(self.keys()[j].rank() < self.keys()[i].rank());
        }
        if i < j {
            assert(self.keys()[i].rank() < self.keys()[j].rank());
        }
    }

    /// The keys of a sound table list its domain in ascending order.
    pub proof fn lemma_listing(self)
        requires
            self.sound(),
        ensures
            lists_ascending(self.keys(), self@.dom()),
            self@.dom().finite(),
            self@.dom().len() == self.keys().len(),
    {
        assert forall|k: K| self.keys().contains(k) <==> self@.dom().contains(k) by {}
        assert(self.keys().no_duplicates()) by {
            assert forall|i: int, j: int|
                0 <= i < self.keys().len() && 0 <= j < self.keys().len() && i != j implies self.keys()[i]
                != self.keys()[j] by {
                if i < j {
                    assert(self.keys()[i].rank() < self.keys()[j].rank());
                } else {
                    assert(self.keys()[j].rank() < self.keys()[i].rank());
                }
            }
        }
        self.keys().unique_seq_to_set();
        assert(self.keys().to_set() =~= self@.dom());
    }

    /// An empty table.
    pub fn new() -> (r: Self)
        ensures
            r@ == Map::<K, V>::empty(),
            r.keys() == Seq::<K>::empty(),
            r.sound(),
    {
        let r = Table { entries: Vec::new() };
        assert(r.keys() =~= Seq::<K>::empty());
        assert(r@ =~= Map::<K, V>::empty());
        r
    }

    /// The number of entries.
    pub fn len(&self) -> (r: usize)
        ensures
            r == self.keys().len(),
            self.sound(),
    {
        proof {
            use_type_invariant(self);
        }
        self.entries.len()
    }

    /// Whether the table holds nothing.
    pub fn is_empty(&self) -> (r: bool)
        ensures
            r == (self.keys().len() == 0),
            r == (self@ == Map::<K, V>::empty()),
            self.sound(),
    {
        proof {
            use_type_invariant(self);
            if self.keys().len() == 0 {
                assert(self@ =~= Map::<K, V>::empty());
            } else {
                self.lemma_entry(0);
            }
        }
        self.entries.len() == 0
    }

    /// The key at a position, counted in ascending order.
    pub fn key_at(&self, i: usize) -> (r: K)
        requires
            i < self.keys().len(),
        ensures
            r == self.keys()[i as int],
            self@.contains_key(r),
            self.sound(),
    {
        proof {
            use_type_invariant(self);
            self.lemma_entry(i as int);
        }
        self.entries[i].key
    }

    /// The value at a position, counted in ascending order of the keys.
    pub fn value_at(&self, i: usize) -> (r: &V)
        requires
            i < self.keys().len(),
        ensures
            *r == self.values()[i as int],
            *r == self@[self.keys()[i as int]],
            self.sound(),
    {
        proof {
            use_type_invariant(self);
            self.lemma_entry(i as int);
        }
        &self.entries[i].value
    }

    /// The keys, in ascending order.
    pub fn key_list(&self) -> (r: Vec<K>)
        ensures
            r@ == self.keys(),
            self.sound(),
    {
        proof {
            use_type_invariant(self);
        }
        let n = self.entries.len();
        let mut out: Vec<K> = Vec::new();
        let mut i: usize = 0;
        while i < n
            invariant
                n == self.entries@.len(),
                i <= n,
                out@ == self.keys().take(i as int),
            decreases n - i,
        {
            out.push(self.entries[i].key);
            proof {
                assert(self.keys().take(i + 1) =~= self.keys().take(i as int).push(
                    self.keys()[i as int],
                ));
            }
            i += 1;
        }
        proof {
            assert(self.keys().take(n as int) =~= self.keys());
        }
        out
    }

    /// The position of a key, if the table holds it.
    pub fn position(&self, key: &K) -> (r: Option<usize>)
        ensures
            self.sound(),
            match r {
                Some(i) => i < self.keys().len() && self.keys()[i as int] == *key,
                None => !self@.contains_key(*key),
            },
    {
        proof {
            use_type_invariant(self);
        }
        let n = self.entries.len();
        let mut i: usize = 0;
        while i < n
            invariant
                n == self.entries@.len(),
                i <= n,
                self.sound(),
                forall|j: int| 0 <= j < i ==> self.keys()[j] != *key,
            decreases n - i,
        {
            if self.entries[i].key.same(key) {
                proof {
                    K::rank_identifies(self.keys()[i as int], *key);
                }
                return Some(i);
            }
            i += 1;
        }
        None
    }

    /// Whether the table holds the key.
    pub fn contains_key(&self, key: &K) -> (r: bool)
        ensures
            r == self@.contains_key(*key),
            self.sound(),
    {
        self.position(key).is_some()
    }

    /// The value under a key, if the table holds it.
    pub fn get(&self, key: &K) -> (r: Option<&V>)
        ensures
            self.sound(),
            match r {
                Some(v) => self@.contains_key(*key) && *v == self@[*key],
                None => !self@.contains_key(*key),
            },
    {
        match self.position(key) {
            Some(i) => {
                proof {
                    self.lemma_entry(i as int);
                }
                Some(&self.entries[i].value)
            },
            None => None,
        }
    }

    /// The greatest key, if the table holds any.
    pub fn last_key(&self) -> (r: Option<K>)
        ensures
            self.sound(),
            match r {
                Some(k) => self@.contains_key(k) && forall|o: K| #[trigger]
                    self@.contains_key(o) ==> o.rank() <= k.rank(),
                None => self@ == Map::<K, V>::empty(),
            },
    {
        proof {
            use_type_invariant(self);
        }
        let n = self.entries.len();
        if n == 0 {
            assert(self@ =~= Map::<K, V>::empty());
            None
        } else {
            let k = self.entries[n - 1].key;
            proof {
                self.lemma_entry(n - 1);
                assert forall|o: K| #[trigger] self@.contains_key(o) implies o.rank()
                    <= k.rank() by {
                    let j = self.keys().index_of(o);
                    assert(0 <= j < n && self.keys()[j] == o);
                }
            }
            Some(k)
        }
    }

    /// Puts a value under a key and hands back the value that was there.
    pub fn insert(&mut self, key: K, value: V) -> (r: Option<V>)
        ensures
            final(self)@ == old(self)@.insert(key, value),
            r == (if old(self)@.contains_key(key) {
                Some(old(self)@[key])
            } else {
                None
            }),
            final(self).sound(),
    {
        proof {
            use_type_invariant(&*self);
        }
        let n = self.entries.len();
        let mut i: usize = 0;
        while i < n && self.entries[i].key.precedes(&key)
            invariant
                n == self.entries@.len(),
                i <= n,
                *self == *old(self),
                forall|j: int| 0 <= j < i ==> self.keys()[j].rank() < key.rank(),
            decreases n - i,
        {
            i += 1;
        }
        let ghost before = *self;
        if i < n && self.entries[i].key.same(&key) {
            proof {
                K::rank_identifies(before.keys()[i as int], key);
                before.lemma_entry(i as int);
            }
            let mut entries: Vec<Entry<K, V>> = Vec::new();
            core::mem::swap(&mut self.entries, &mut entries);
            let gone = entries.remove(i);
            entries.insert(i, Entry { key, value });
            proof {
                assert(keys_of(entries@) =~= before.keys());
            }
            self.entries = entries;
            proof {
                assert(self.keys() =~= before.keys());
                assert(self.values() =~= before.values().update(i as int, value));
                assert forall|k: K| #[trigger] self@.contains_key(k) implies self@[k]
                    == before@.insert(key, value)[k] by {
                    let j = self.keys().index_of(k);
                    self.lemma_entry(j);
                    before.lemma_entry(j);
                }
                assert(self@ =~= before@.insert(key, value));
            }
            Some(gone.value)
        } else {
            proof {
                assert(!before@.contains_key(key)) by {
                    if before.keys().contains(key) {
                        let j = before.keys().index_of(key);
                        if j < i {
                        } else if j > i {
                            assert(before.keys()[i as int].rank() < before.keys()[j].rank());
                        } else {
                        }
                    }
                }
            }
            let mut entries: Vec<Entry<K, V>> = Vec::new();
            core::mem::swap(&mut self.entries, &mut entries);
            entries.insert(i, Entry { key, value });
            proof {
                let now = keys_of(entries@);
                assert(now =~= before.keys().insert(i as int, key));
                assert(ascending(now)) by {
                    assert forall|a: int, b: int| 0 <= a < b < now.len() implies now[a].rank()
                        < now[b].rank() by {
                        let pa = if a < i { a } else { a - 1 };
                        let pb = if b < i { b } else { b - 1 };
                        if a != i && b != i {
                            assert(before.keys()[pa].rank() < before.keys()[pb].rank());
                        } else if a == i {
                            assert(before.keys()[i as int].rank() <= before.keys()[pb].rank());
                        }
                    }
                }
            }
            self.entries = entries;
            proof {
                assert(self.keys() =~= before.keys().insert(i as int, key));
                assert(self.values() =~= before.values().insert(i as int, value));
                assert forall|k: K| self@.contains_key(k) <==> before@.insert(
                    key,
                    value,
                ).contains_key(k) by {
                    if before.keys().contains(k) {
                        let j = before.keys().index_of(k);
                        let p = if j < i { j } else { j + 1 };
                        assert(self.keys()[p] == k);
                    }
                    if self.keys().contains(k) && k != key {
                        let j = self.keys().index_of(k);
                        let p = if j < i { j } else { j - 1 };
                        assert(before.keys()[p] == k);
                    }
                    assert(self.keys()[i as int] == key);
                }
                assert forall|k: K| #[trigger] self@.contains_key(k) implies self@[k]
                    == before@.insert(key, value)[k] by {
                    let j = self.keys().index_of(k);
                    self.lemma_entry(j);
                    if j != i {
                        let p = if j < i { j } else { j - 1 };
                        before.lemma_entry(p);
                    }
                }
                assert(self@ =~= before@.insert(key, value));
            }
            None
        }
    }

    /// Takes out the entry at a position, counted in ascending order.
    pub fn remove_at(&mut self, i: usize) -> (r: (K, V))
        requires
            i < old(self).keys().len(),
        ensures
            r.0 == old(self).keys()[i as int],
            r.1 == old(self).values()[i as int],
            final(self).keys() == old(self).keys().remove(i as int),
            final(self).values() == old(self).values().remove(i as int),
            final(self)@ == old(self)@.remove(r.0),
            final(self).sound(),
    {
        proof {
            use_type_invariant(&*self);
        }
        let ghost before = *self;
        let mut entries: Vec<Entry<K, V>> = Vec::new();
        core::mem::swap(&mut self.entries, &mut entries);
        let gone = entries.remove(i);
        proof {
            assert(keys_of(entries@) =~= before.keys().remove(i as int));
        }
        self.entries = entries;
        proof {
            assert(self.keys() =~= before.keys().remove(i as int));
            assert(self.values() =~= before.values().remove(i as int));
            assert forall|k: K| self@.contains_key(k) <==> before@.remove(gone.key).contains_key(
                k,
            ) by {
                if self.keys().contains(k) {
                    let j = self.keys().index_of(k);
                    let p = if j < i { j } else { j + 1 };
                    assert(before.keys()[p] == k);
                    if p < i {
                        assert(before.keys()[p].rank() < before.keys()[i as int].rank());
                    } else {
                        assert(before.keys()[i as int].rank() < before.keys()[p].rank());
                    }
                }
                if before.keys().contains(k) && k != gone.key {
                    let j = before.keys().index_of(k);
                    let p = if j < i { j } else { j - 1 };
                    assert(self.keys()[p] == k);
                }
            }
            assert forall|k: K| #[trigger] self@.contains_key(k) implies self@[k]
                == before@.remove(gone.key)[k] by {
                let j = self.keys().index_of(k);
                self.lemma_entry(j);
                let p = if j < i { j } else { j + 1 };
                before.lemma_entry(p);
            }
            assert(self@ =~= before@.remove(gone.key));
        }
        (gone.key, gone.value)
    }

    /// Takes out the entry under a key and hands back its value.
    pub fn remove(&mut self, key: &K) -> (r: Option<V>)
        ensures
            final(self)@ == old(self)@.remove(*key),
            r == (if old(self)@.contains_key(*key) {
                Some(old(self)@[*key])
            } else {
                None
            }),
            final(self).sound(),
    {
        match self.position(key) {
            Some(i) => {
                proof {
                    self.lemma_entry(i as int);
                }
                let gone = self.remove_at(i);
                Some(gone.1)
            },
            None => {
                proof {
                    use_type_invariant(&*self);
                    assert(self@ =~= self@.remove(*key));
                }
                None
            },
        }
    }

    /// Empties the table.
    pub fn clear(&mut self)
        ensures
            final(self)@ == Map::<K, V>::empty(),
            final(self).keys() == Seq::<K>::empty(),
            final(self).sound(),
    {
        self.entries = Vec::new();
        proof {
            assert(self.keys() =~= Seq::<K>::empty());
            assert(self@ =~= Map::<K, V>::empty());
        }
    }
}

} // verus!
