use vstd::prelude::*;
use crate::text::{
    lemma_str_lt_irreflexive, lemma_str_lt_total, lemma_str_lt_transitive, str_lt, text_less,
};

verus! {

/// Keys strictly increasing in text order (hence no key twice).
pub open spec fn sorted_keys(ks: Seq<Seq<char>>) -> bool {
    forall|i: int, j: int| 0 <= i < j < ks.len() ==> str_lt(#[trigger] ks[i], #[trigger] ks[j])
}

/// The map that an association list with distinct keys stands for.
pub open spec fn assoc_map<V>(ks: Seq<Seq<char>>, vs: Seq<V>) -> Map<Seq<char>, V> {
    Map::new(|k: Seq<char>| ks.contains(k), |k: Seq<char>| vs[ks.index_of(k)])
}

pub proof fn lemma_sorted_index_of(ks: Seq<Seq<char>>, i: int)
    requires
        sorted_keys(ks),
        0 <= i < ks.len(),
    ensures
        ks.contains(ks[i]),
        ks.index_of(ks[i]) == i,
{
    let k = ks[i];
    assert(ks[i] == k);
    let j = ks.index_of(k);
    assert(ks[j] == k);
    if j < i {
        assert(str_lt(ks[j], ks[i]));
        lemma_str_lt_irreflexive(k);
    } else if i < j {
        assert(str_lt(ks[i], ks[j]));
        lemma_str_lt_irreflexive(k);
    }
}

/// Looking up the key at position `i` gives the value at position `i`.
pub proof fn lemma_assoc_at<V>(ks: Seq<Seq<char>>, vs: Seq<V>, i: int)
    requires
        sorted_keys(ks),
        0 <= i < ks.len(),
    ensures
        assoc_map(ks, vs).contains_key(ks[i]),
        assoc_map(ks, vs)[ks[i]] == vs[i],
{
    lemma_sorted_index_of(ks, i);
}

/// A map from text keys to values, kept in ascending key order, as a
/// `BTreeMap<String, _>` keeps its entries.
#[derive(Debug)]
pub struct StrMap<T: View> {
    entries: Vec<(String, T)>,
}

impl<T: View> StrMap<T> {
    /// Keys in ascending order.
    pub closed spec fn keys(&self) -> Seq<Seq<char>> {
        self.entries@.map_values(|e: (String, T)| e.0@)
    }

    /// Values, in the order of their keys.
    pub closed spec fn values(&self) -> Seq<T::V> {
        self.entries@.map_values(|e: (String, T)| e.1@)
    }

    #[verifier::type_invariant]
    closed spec fn keys_ascending(&self) -> bool {
        sorted_keys(self.keys())
    }

    /// The contents as a map.
    pub open spec fn as_map(&self) -> Map<Seq<char>, T::V> {
        assoc_map(self.keys(), self.values())
    }

    /// Facts every map satisfies: as many keys as values, keys ascending.
    pub fn facts(&self)
        ensures
            self.keys().len() == self.values().len(),
            sorted_keys(self.keys()),
    {
        proof {
            use_type_invariant(self);
        }
    }

    pub fn new() -> (m: Self)
        ensures
            m.keys() == Seq::<Seq<char>>::empty(),
            m.values() == Seq::<T::V>::empty(),
            m.as_map() == Map::<Seq<char>, T::V>::empty(),
    {
        let m = StrMap { entries: Vec::new() };
        assert(m.keys() =~= Seq::<Seq<char>>::empty());
        assert(m.values() =~= Seq::<T::V>::empty());
        assert(m.as_map() =~= Map::<Seq<char>, T::V>::empty());
        m
    }

    pub fn len(&self) -> (n: usize)
        ensures
            n == self.keys().len(),
            n == self.values().len(),
    {
        self.entries.len()
    }

    pub fn is_empty(&self) -> (b: bool)
        ensures
            b == (self.keys().len() == 0),
            b == (self.as_map().dom() == Set::<Seq<char>>::empty()),
    {
        let b = self.entries.len() == 0;
        if !b {
            assert(self.as_map().dom().contains(self.keys()[0]));
        } else {
            assert(self.as_map().dom() =~= Set::<Seq<char>>::empty());
        }
        b
    }

    pub fn key_at(&self, i: usize) -> (k: &String)
        requires
            i < self.keys().len(),
        ensures
            k@ == self.keys()[i as int],
    {
        &self.entries[i].0
    }

    pub fn value_at(&self, i: usize) -> (v: &T)
        requires
            i < self.keys().len(),
        ensures
            v@ == self.values()[i as int],
            self.as_map().contains_key(self.keys()[i as int]),
            self.as_map()[self.keys()[i as int]] == v@,
    {
        proof {
            use_type_invariant(self);
            lemma_assoc_at(self.keys(), self.values(), i as int);
        }
        &self.entries[i].1
    }

    /// Position of `key`, if present.
    pub fn find(&self, key: &str) -> (r: Option<usize>)
        ensures
            r matches Some(i) ==> i < self.keys().len() && self.keys()[i as int] == key@,
            r is None ==> !self.keys().contains(key@),
            r is Some == self.as_map().contains_key(key@),
    {
        let k = String::from_str(key);
        let mut i: usize = 0;
        while i < self.entries.len()
            invariant
                i <= self.keys().len(),
                k@ == key@,
                forall|j: int| 0 <= j < i ==> self.keys()[j] != key@,
            decreases self.keys().len() - i,
        {
            if self.entries[i].0 == k {
                assert(self.keys()[i as int] == key@);
                return Some(i);
            }
            i = i + 1;
        }
        None
    }

    pub fn contains_key(&self, key: &str) -> (b: bool)
        ensures
            b == self.as_map().contains_key(key@),
    {
        self.find(key).is_some()
    }

    pub fn get(&self, key: &str) -> (r: Option<&T>)
        ensures
            r is Some == self.as_map().contains_key(key@),
            r matches Some(v) ==> v@ == self.as_map()[key@],
    {
        match self.find(key) {
            Some(i) => Some(self.value_at(i)),
            None => None,
        }
    }

    /// Number of keys that sort before `key`, and whether `key` sits right there.
    fn locate(&self, key: &String) -> (r: (usize, bool))
        ensures
            r.0 <= self.keys().len(),
            forall|j: int| 0 <= j < r.0 ==> str_lt(#[trigger] self.keys()[j], key@),
            forall|j: int| r.0 <= j < self.keys().len() ==> str_lt(key@, #[trigger] self.keys()[j])
                || (j == r.0 && self.keys()[j] == key@),
            r.1 == (r.0 < self.keys().len() && self.keys()[r.0 as int] == key@),
    {
        proof {
            use_type_invariant(self);
        }
        let mut i: usize = 0;
        while i < self.entries.len() && text_less(self.entries[i].0.as_str(), key.as_str())
            invariant
                i <= self.keys().len(),
                sorted_keys(self.keys()),
                forall|j: int| 0 <= j < i ==> str_lt(#[trigger] self.keys()[j], key@),
            decreases self.keys().len() - i,
        {
            i = i + 1;
        }
        let ghost ks = self.keys();
        if i < self.entries.len() {
            let here = self.entries[i].0 == *key;
            proof {
                lemma_str_lt_total(ks[i as int], key@);
                assert forall|j: int| i <= j < ks.len() implies str_lt(key@, #[trigger] ks[j])
                    || (j == i && ks[j] == key@) by {
                    if j > i {
                        assert(str_lt(ks[i as int], ks[j]));
                        if ks[i as int] != key@ {
                            lemma_str_lt_transitive(key@, ks[i as int], ks[j]);
                        }
                    }
                }
            }
            (i, here)
        } else {
            (i, false)
        }
    }

    /// Sets `key` to `value`; gives back the value it replaced.
    pub fn insert(&mut self, key: String, value: T) -> (old_value: Option<T>)
        ensures
            final(self).as_map() == old(self).as_map().insert(key@, value@),
            final(self).keys().len() == old(self).keys().len() + if old(self).as_map().contains_key(
                key@,
            ) {
                0int
            } else {
                1int
            },
            old_value is Some == old(self).as_map().contains_key(key@),
            old_value matches Some(v) ==> v@ == old(self).as_map()[key@],
    {
        proof {
            use_type_invariant(&*self);
        }
        let ghost ks = self.keys();
        let ghost vs = self.values();
        let ghost key_v = key@;
        let ghost value_v = value@;
        let (p, here) = self.locate(&key);
        let mut entries: Vec<(String, T)> = Vec::new();
        std::mem::swap(&mut entries, &mut self.entries);
        assert(entries@.map_values(|e: (String, T)| e.0@) == ks);
        if here {
            let old_entry = entries.remove(p);
            entries.insert(p, (key, value));
            let ghost nks = entries@.map_values(|e: (String, T)| e.0@);
            let ghost nvs = entries@.map_values(|e: (String, T)| e.1@);
            proof {
                assert(nks =~= ks);
                assert(nvs =~= vs.update(p as int, value_v));
                lemma_sorted_index_of(ks, p as int);
                assert(assoc_map(nks, nvs) =~= assoc_map(ks, vs).insert(key_v, value_v)) by {
                    assert forall|k: Seq<char>| ks.contains(k) implies #[trigger] assoc_map(
                        nks,
                        nvs,
                    )[k] == assoc_map(ks, vs).insert(key_v, value_v)[k] by {
                        let j = ks.index_of(k);
                        lemma_sorted_index_of(ks, j);
                    }
                }
            }
            self.entries = entries;
            Some(old_entry.1)
        } else {
            entries.insert(p, (key, value));
            let ghost nks = entries@.map_values(|e: (String, T)| e.0@);
            let ghost nvs = entries@.map_values(|e: (String, T)| e.1@);
            proof {
                assert(nks =~= ks.insert(p as int, key_v));
                assert(nvs =~= vs.insert(p as int, value_v));
                assert(!ks.contains(key_v)) by {
                    if ks.contains(key_v) {
                        let j = ks.index_of(key_v);
                        if j < p {
                            lemma_str_lt_irreflexive(key_v);
                        } else {
                            lemma_str_lt_irreflexive(key_v);
                        }
                    }
                }
                assert(sorted_keys(nks)) by {
                    assert forall|i: int, j: int| 0 <= i < j < nks.len() implies str_lt(
                        #[trigger] nks[i],
                        #[trigger] nks[j],
                    ) by {
                        if j < p {
                        } else if j == p {
                        } else if i < p {
                            lemma_str_lt_transitive(nks[i], key_v, nks[j]);
                        } else if i == p {
                        } else {
                        }
                    }
                }
                assert(assoc_map(nks, nvs) =~= assoc_map(ks, vs).insert(key_v, value_v)) by {
                    lemma_sorted_index_of(nks, p as int);
                    assert forall|k: Seq<char>| #[trigger] nks.contains(k) == (ks.contains(k)
                        || k == key_v) by {
                        if ks.contains(k) {
                            let j = ks.index_of(k);
                            if j < p {
                                assert(nks[j] == k);
                            } else {
                                assert(nks[j + 1] == k);
                            }
                        }
                        if nks.contains(k) {
                            let j = nks.index_of(k);
                            if j < p {
                                assert(ks[j] == k);
                            } else if j > p {
                                assert(ks[j - 1] == k);
                            }
                        }
                    }
                    assert forall|k: Seq<char>| ks.contains(k) implies #[trigger] assoc_map(
                        nks,
                        nvs,
                    )[k] == assoc_map(ks, vs)[k] by {
                        let j = ks.index_of(k);
                        lemma_sorted_index_of(ks, j);
                        if j < p {
                            lemma_sorted_index_of(nks, j);
                        } else {
                            lemma_sorted_index_of(nks, j + 1);
                        }
                    }
                }
            }
            self.entries = entries;
            None
        }
    }

    /// Removes `key`; gives back its value.
    pub fn remove(&mut self, key: &str) -> (old_value: Option<T>)
        ensures
            final(self).as_map() == old(self).as_map().remove(key@),
            final(self).keys().len() == old(self).keys().len() - if old(self).as_map().contains_key(
                key@,
            ) {
                1int
            } else {
                0int
            },
            old_value is Some == old(self).as_map().contains_key(key@),
            old_value matches Some(v) ==> v@ == old(self).as_map()[key@],
    {
        proof {
            use_type_invariant(&*self);
        }
        let ghost ks = self.keys();
        let ghost vs = self.values();
        match self.find(key) {
            None => {
                assert(self.as_map().remove(key@) =~= self.as_map());
                None
            },
            Some(p) => {
                let mut entries: Vec<(String, T)> = Vec::new();
                std::mem::swap(&mut entries, &mut self.entries);
                let old_entry = entries.remove(p);
                let ghost nks = entries@.map_values(|e: (String, T)| e.0@);
                let ghost nvs = entries@.map_values(|e: (String, T)| e.1@);
                proof {
                    assert(nks =~= ks.remove(p as int));
                    assert(nvs =~= vs.remove(p as int));
                    lemma_sorted_index_of(ks, p as int);
                    assert(sorted_keys(nks)) by {
                        assert forall|i: int, j: int| 0 <= i < j < nks.len() implies str_lt(
                            #[trigger] nks[i],
                            #[trigger] nks[j],
                        ) by {
                            if j < p {
                            } else if i < p {
                                assert(nks[j] == ks[j + 1]);
                            } else {
                                assert(nks[i] == ks[i + 1]);
                                assert(nks[j] == ks[j + 1]);
                            }
                        }
                    }
                    assert(assoc_map(nks, nvs) =~= assoc_map(ks, vs).remove(key@)) by {
                        assert forall|k: Seq<char>| #[trigger] nks.contains(k) == (ks.contains(k)
                            && k != key@) by {
                            if ks.contains(k) && k != key@ {
                                let j = ks.index_of(k);
                                if j < p {
                                    assert(nks[j] == k);
                                } else {
                                    assert(nks[j - 1] == k);
                                }
                            }
                            if nks.contains(k) {
                                let j = nks.index_of(k);
                                if j < p {
                                    assert(ks[j] == k);
                                    lemma_sorted_index_of(ks, j);
                                } else {
                                    assert(ks[j + 1] == k);
                                    lemma_sorted_index_of(ks, j + 1);
                                }
                            }
                        }
                        assert forall|k: Seq<char>| nks.contains(k) implies #[trigger] assoc_map(
                            nks,
                            nvs,
                        )[k] == assoc_map(ks, vs)[k] by {
                            let j = nks.index_of(k);
                            lemma_sorted_index_of(nks, j);
                            if j < p {
                                lemma_sorted_index_of(ks, j);
                            } else {
                                lemma_sorted_index_of(ks, j + 1);
                            }
                        }
                    }
                }
                self.entries = entries;
                Some(old_entry.1)
            },
        }
    }
}

} // verus!
