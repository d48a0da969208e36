//! A table from keys to values, in the order the keys were first inserted: the
//! daemon keys its sockets by address, its connections by peer identifier and its
//! local applications by port.
use vstd::prelude::*;
use crate::address::SocketAddress;
use crate::identifier::{lemma_identifier_view, Identifier};

verus! {

broadcast use lemma_identifier_view;

/// Keys whose equality the table can test.
pub trait TableKey: Sized + Copy {
    fn same_key(&self, other: &Self) -> (r: bool)
        ensures
            r == (*self == *other),
    ;
}

impl TableKey for u16 {
    fn same_key(&self, other: &u16) -> (r: bool) {
        *self == *other
    }
}

impl TableKey for Identifier {
    fn same_key(&self, other: &Identifier) -> (r: bool) {
        *self == *other
    }
}

impl TableKey for SocketAddress {
    fn same_key(&self, other: &SocketAddress) -> (r: bool) {
        *self == *other
    }
}

/// Values under distinct keys.
pub struct Table<K: TableKey, V> {
    entries: Vec<(K, V)>,
}

impl<K: TableKey, V> View for Table<K, V> {
    type V = Map<K, V>;

    closed spec fn view(&self) -> Map<K, V> {
        Map::new(
            |k: K| exists|i: int| 0 <= i < self.entries@.len() && self.entries@[i].0 == k,
            |k: K|
                {
                    let i = choose|i: int| 0 <= i < self.entries@.len() && self.entries@[i].0 == k;
                    self.entries@[i].1
                },
        )
    }
}

impl<K: TableKey, V> Table<K, V> {
    #[verifier::type_invariant]
    spec fn keys_distinct(self) -> bool {
        forall|i: int, j: int|
            0 <= i < j < self.entries@.len() ==> self.entries@[i].0 != self.entries@[j].0
    }

    /// The keys, in the order they were first inserted.
    pub closed spec fn key_order(self) -> Seq<K> {
        self.entries@.map_values(|e: (K, V)| e.0)
    }

    proof fn lemma_entry(&self, i: int)
        requires
            self.keys_distinct(),
            0 <= i < self.entries@.len(),
        ensures
            self@.contains_key(self.entries@[i].0),
            self@[self.entries@[i].0] == self.entries@[i].1,
    {
        let k = self.entries@[i].0;
        assert(self@.dom().contains(k));
        let j = choose|j: int| 0 <= j < self.entries@.len() && self.entries@[j].0 == k;
        if j < i {
            assert(self.entries@[j].0 != self.entries@[i].0);
        } else if j > i {
            assert(self.entries@[i].0 != self.entries@[j].0);
        }
    }

    proof fn lemma_key_order(&self)
        requires
            self.keys_distinct(),
        ensures
            self.key_order().no_duplicates(),
            self.key_order().to_set() == self@.dom(),
            self@.dom().finite(),
            self@.len() == self.key_order().len(),
    {
        let keys = self.key_order();
        assert forall|i: int, j: int| 0 <= i < keys.len() && 0 <= j < keys.len() && i != j implies keys[i]
            != keys[j] by {
            if i < j {
                assert(self.entries@[i].0 != self.entries@[j].0);
            } else {
                assert(self.entries@[j].0 != self.entries@[i].0);
            }
        }
        assert(self@.dom() =~= keys.to_set()) by {
            assert forall|k: K| self@.dom().contains(k) implies keys.to_set().contains(k) by {
                let j = choose|j: int| 0 <= j < self.entries@.len() && self.entries@[j].0 == k;
                assert(keys[j] == k);
            }
            assert forall|k: K| keys.to_set().contains(k) implies self@.dom().contains(k) by {
                let j = choose|j: int| 0 <= j < keys.len() && keys[j] == k;
                assert(self.entries@[j].0 == k);
            }
        }
        keys.unique_seq_to_set();
    }

    fn find(&self, key: &K) -> (r: Option<usize>)
        ensures
            r matches Some(i) ==> i < self.entries@.len() && self.entries@[i as int].0 == *key,
            r is None ==> !self@.contains_key(*key),
    {
        let mut i: usize = 0;
        while i < self.entries.len()
            invariant
                i <= self.entries@.len(),
                forall|j: int| 0 <= j < i ==> self.entries@[j].0 != *key,
            decreases self.entries@.len() - i,
        {
            if self.entries[i].0.same_key(key) {
                return Some(i);
            }
            i = i + 1;
        }
        proof {
            if self@.contains_key(*key) {
                let j = choose|j: int| 0 <= j < self.entries@.len() && self.entries@[j].0 == *key;
                assert(self.entries@[j].0 != *key);
            }
        }
        None
    }

    /// The empty table.
    pub fn new() -> (r: Table<K, V>)
        ensures
            r@ == Map::<K, V>::empty(),
            r.key_order() == Seq::<K>::empty(),
    {
        let r = Table { entries: Vec::new() };
        assert(r@ =~= Map::<K, V>::empty());
        assert(r.key_order() =~= Seq::<K>::empty());
        r
    }

    /// The number of keys.
    pub fn len(&self) -> (n: usize)
        ensures
            n == self@.len(),
    {
        proof {
            use_type_invariant(self);
            self.lemma_key_order();
        }
        self.entries.len()
    }

    /// Whether `key` has a value.
    pub fn contains_key(&self, key: &K) -> (r: bool)
        ensures
            r == self@.contains_key(*key),
    {
        self.find(key).is_some()
    }

    /// The value under `key`, if any.
    pub fn get(&self, key: &K) -> (r: Option<&V>)
        ensures
            r is Some <==> self@.contains_key(*key),
            r matches Some(v) ==> *v == self@[*key],
    {
        proof {
            use_type_invariant(self);
        }
        match self.find(key) {
            Some(i) => {
                proof {
                    self.lemma_entry(i as int);
                }
                Some(&self.entries[i].1)
            },
            None => None,
        }
    }

    /// Puts `value` under `key`, replacing what was there; a new key comes last in the
    /// key order, a known one keeps its place.
    pub fn insert(&mut self, key: K, value: V)
        ensures
            final(self)@ == old(self)@.insert(key, value),
            old(self)@.contains_key(key) ==> final(self).key_order() == old(self).key_order(),
            !old(self)@.contains_key(key) ==> final(self).key_order() == old(
                self,
            ).key_order().push(key),
    {
        proof {
            use_type_invariant(&*self);
        }
        let ghost old_entries = self.entries@;
        let ghost val = value;
        let ghost at: int;
        match self.find(&key) {
            Some(i) => {
                let mut entries = Vec::new();
                std::mem::swap(&mut entries, &mut self.entries);
                entries.set(i, (key, value));
                self.entries = entries;
                proof {
                    at = i as int;
                    assert(self.key_order() =~= old(self).key_order());
                }
            },
            None => {
                let mut entries = Vec::new();
                std::mem::swap(&mut entries, &mut self.entries);
                entries.push((key, value));
                self.entries = entries;
                proof {
                    at = old_entries.len() as int;
                    assert(self.key_order() =~= old(self).key_order().push(key));
                    assert forall|j: int| 0 <= j < old_entries.len() implies old_entries[j].0
                        != key by {
                        if old_entries[j].0 == key {
                            assert(old(self)@.contains_key(key));
                        }
                    }
                }
            },
        }
        proof {
            use_type_invariant(&*self);
            assert(0 <= at < self.entries@.len() && self.entries@[at] == (key, val));
            assert(forall|j: int|
                0 <= j < old_entries.len() ==> self.entries@[j].0 == old_entries[j].0);
            assert(forall|j: int|
                0 <= j < self.entries@.len() && self.entries@[j].0 != key ==> j
                    < old_entries.len() && self.entries@[j] == old_entries[j]);
        }
        assert(self@ =~= old(self)@.insert(key, val)) by {
            assert forall|k: K| #![auto] self@.contains_key(k) <==> old(self)@.insert(
                key,
                val,
            ).contains_key(k) by {
                if old(self)@.contains_key(k) {
                    let j = choose|j: int| 0 <= j < old_entries.len() && old_entries[j].0 == k;
                    assert(self.entries@[j].0 == k);
                }
                if k == key {
                    assert(self.entries@[at].0 == k);
                }
                if self@.contains_key(k) && k != key {
                    let j = choose|j: int| 0 <= j < self.entries@.len() && self.entries@[j].0 == k;
                    assert(old_entries[j].0 == k);
                }
            }
            assert forall|k: K| #![auto] self@.contains_key(k) implies self@[k] == old(
                self,
            )@.insert(key, val)[k] by {
                if k == key {
                    self.lemma_entry(at);
                } else {
                    let j = choose|j: int| 0 <= j < self.entries@.len() && self.entries@[j].0 == k;
                    self.lemma_entry(j);
                    old(self).lemma_entry(j);
                }
            }
        }
    }

    /// Takes the value under `key` out of the table, if there is one; the other keys keep
    /// their order.
    pub fn remove(&mut self, key: &K) -> (r: Option<V>)
        ensures
            final(self)@ == old(self)@.remove(*key),
            r is Some <==> old(self)@.contains_key(*key),
            r matches Some(v) ==> v == old(self)@[*key],
            final(self).key_order() == old(self).key_order().filter(|k: K| k != *key),
    {
        proof {
            use_type_invariant(&*self);
        }
        let ghost old_entries = self.entries@;
        match self.find(key) {
            Some(i) => {
                let mut entries = Vec::new();
                std::mem::swap(&mut entries, &mut self.entries);
                let (_, v) = entries.remove(i);
                self.entries = entries;
                proof {
                    old(self).lemma_entry(i as int);
                    assert(self.entries@ == old_entries.remove(i as int));
                    assert forall|j: int| 0 <= j < old_entries.len() && j != i implies old_entries[j].0
                        != *key by {
                        if j < i {
                            assert(old_entries[j].0 != old_entries[i as int].0);
                        } else {
                            assert(old_entries[i as int].0 != old_entries[j].0);
                        }
                    }
                    assert(self@ =~= old(self)@.remove(*key)) by {
                        assert forall|k: K| #![auto] self@.contains_key(k) <==> old(self)@.remove(
                            *key,
                        ).contains_key(k) by {
                            if self@.contains_key(k) {
                                let j = choose|j: int|
                                    0 <= j < self.entries@.len() && self.entries@[j].0 == k;
                                if j < i {
                                    assert(old_entries[j].0 == k);
                                } else {
                                    assert(old_entries[j + 1].0 == k);
                                }
                            }
                            if old(self)@.contains_key(k) && k != *key {
                                let j = choose|j: int|
                                    0 <= j < old_entries.len() && old_entries[j].0 == k;
                                if j < i {
                                    assert(self.entries@[j].0 == k);
                                } else {
                                    assert(self.entries@[j - 1].0 == k);
                                }
                            }
                        }
                        assert forall|k: K| #![auto] self@.contains_key(k) implies self@[k] == old(
                            self,
                        )@[k] by {
                            let j = choose|j: int|
                                0 <= j < self.entries@.len() && self.entries@[j].0 == k;
                            self.lemma_entry(j);
                            if j < i {
                                old(self).lemma_entry(j);
                            } else {
                                old(self).lemma_entry(j + 1);
                            }
                        }
                    }
                    lemma_filter_remove(old(self).key_order(), i as int, *key);
                    assert(self.key_order() =~= old(self).key_order().remove(i as int));
                }
                Some(v)
            },
            None => {
                proof {
                    assert forall|j: int| 0 <= j < old_entries.len() implies old_entries[j].0
                        != *key by {
                        if old_entries[j].0 == *key {
                            assert(old(self)@.contains_key(*key));
                        }
                    }
                    lemma_filter_absent(old(self).key_order(), *key);
                    assert(self@ =~= old(self)@.remove(*key));
                }
                None
            },
        }
    }

    /// Removes every key.
    pub fn clear(&mut self)
        ensures
            final(self)@ == Map::<K, V>::empty(),
            final(self).key_order() == Seq::<K>::empty(),
    {
        self.entries = Vec::new();
        assert(self@ =~= Map::<K, V>::empty());
        assert(self.key_order() =~= Seq::<K>::empty());
    }

    /// The keys, in the order they were first inserted.
    pub fn keys(&self) -> (r: Vec<K>)
        ensures
            r@ == self.key_order(),
            r@.to_set() == self@.dom(),
            r@.no_duplicates(),
    {
        proof {
            use_type_invariant(self);
            self.lemma_key_order();
        }
        let mut r: Vec<K> = Vec::new();
        for i in 0..self.entries.len()
            invariant
                r@ == self.key_order().take(i as int),
        {
            r.push(self.entries[i].0);
            assert(r@ =~= self.key_order().take(i + 1));
        }
        assert(self.key_order().take(self.entries@.len() as int) =~= self.key_order());
        r
    }

    /// The `i`-th key in key order and its value.
    pub fn entry(&self, i: usize) -> (r: (&K, &V))
        requires
            i < self@.len(),
        ensures
            *r.0 == self.key_order()[i as int],
            self@.contains_key(*r.0),
            self@[*r.0] == *r.1,
    {
        proof {
            use_type_invariant(self);
            self.lemma_key_order();
            self.lemma_entry(i as int);
        }
        (&self.entries[i].0, &self.entries[i].1)
    }
}

/// Inserting a value under a key the table does not hold and then removing that key
/// gives back the table; a value inserted under a key is what a get of it returns.
pub proof fn lemma_insert_then_remove<K, V>(m: Map<K, V>, k: K, v: V)
    ensures
        m.insert(k, v).contains_key(k) && m.insert(k, v)[k] == v,
        !m.contains_key(k) ==> m.insert(k, v).remove(k) == m,
{
    if !m.contains_key(k) {
        assert(m.insert(k, v).remove(k) =~= m);
    }
}

proof fn lemma_filter_absent<K>(s: Seq<K>, key: K)
    requires
        !s.contains(key),
    ensures
        s.filter(|k: K| k != key) == s,
    decreases s.len(),
{
    reveal(Seq::filter);
    if s.len() > 0 {
        assert(!s.drop_last().contains(key)) by {
            if s.drop_last().contains(key) {
                let j = choose|j: int| 0 <= j < s.drop_last().len() && s.drop_last()[j] == key;
                assert(s[j] == key);
            }
        }
        lemma_filter_absent(s.drop_last(), key);
        assert(s.drop_last().push(s.last()) =~= s);
    }
}

proof fn lemma_filter_remove<K>(s: Seq<K>, i: int, key: K)
    requires
        0 <= i < s.len(),
        s[i] == key,
        forall|j: int| 0 <= j < s.len() && j != i ==> s[j] != key,
    ensures
        s.filter(|k: K| k != key) == s.remove(i),
    decreases s.len(),
{
    reveal(Seq::filter);
    if i == s.len() - 1 {
        assert(!s.drop_last().contains(key)) by {
            if s.drop_last().contains(key) {
                let j = choose|j: int| 0 <= j < s.drop_last().len() && s.drop_last()[j] == key;
                assert(s[j] == key);
            }
        }
        lemma_filter_absent(s.drop_last(), key);
        assert(s.remove(i) =~= s.drop_last());
    } else {
        lemma_filter_remove(s.drop_last(), i, key);
        assert(s.remove(i) =~= s.drop_last().remove(i).push(s.last()));
    }
}

} // verus!
