//! A map keyed by text, kept as a list of entries with distinct keys.

use vstd::prelude::*;
use crate::text::str_eq;

verus! {

struct Entry<V> {
    key: String,
    value: V,
}

/// A finite map from strings to values. Its view is the mathematical map from
/// the keys' characters to the values' views.
pub struct StrMap<V> {
    entries: Vec<Entry<V>>,
}

spec fn keys_of<V>(s: Seq<Entry<V>>) -> Seq<Seq<char>> {
    Seq::new(s.len(), |i: int| s[i].key@)
}

spec fn map_of<V: View>(s: Seq<Entry<V>>) -> Map<Seq<char>, V::V> {
    Map::new(
        |k: Seq<char>| keys_of(s).contains(k),
        |k: Seq<char>| s[keys_of(s).index_of(k)].value@,
    )
}

proof fn lemma_map_of_at<V: View>(s: Seq<Entry<V>>, i: int)
    requires
        keys_of(s).no_duplicates(),
        0 <= i < s.len(),
    ensures
        map_of(s).contains_key(s[i].key@),
        map_of(s)[s[i].key@] == s[i].value@,
        keys_of(s).index_of(s[i].key@) == i,
{
    let keys = keys_of(s);
    assert(keys[i] == s[i].key@);
    let j = keys.index_of(s[i].key@);
    assert(0 <= j < keys.len() && keys[j] == s[i].key@);
}

impl<V: View> View for StrMap<V> {
    type V = Map<Seq<char>, V::V>;

    closed spec fn view(&self) -> Map<Seq<char>, V::V> {
        map_of(self.entries@)
    }
}

impl<V> StrMap<V> {
    #[verifier::type_invariant]
    spec fn distinct_keys(&self) -> bool {
        keys_of(self.entries@).no_duplicates()
    }

    /// The keys in the order in which the entries are kept.
    pub closed spec fn order(&self) -> Seq<Seq<char>> {
        keys_of(self.entries@)
    }
}

impl<V: View> StrMap<V> {
    /// `order` lists every key of the map once.
    pub open spec fn order_lists_keys(&self) -> bool {
        &&& self.order().no_duplicates()
        &&& forall|k: Seq<char>| self.order().contains(k) <==> self@.contains_key(k)
    }

    /// The empty map.
    pub fn new() -> (m: Self)
        ensures
            m@ == Map::<Seq<char>, V::V>::empty(),
            m.order() == Seq::<Seq<char>>::empty(),
    {
        let m = StrMap { entries: Vec::new() };
        assert(m@ =~= Map::<Seq<char>, V::V>::empty());
        assert(m.order() =~= Seq::<Seq<char>>::empty());
        m
    }

    /// The number of entries.
    pub fn len(&self) -> (n: usize)
        ensures
            n == self.order().len(),
            self.order_lists_keys(),
    {
        proof {
            use_type_invariant(self);
        }
        self.entries.len()
    }

    /// The value of the entry at a position of `order`.
    pub fn value_at(&self, i: usize) -> (v: &V)
        requires
            i < self.order().len(),
        ensures
            self@.contains_key(self.order()[i as int]),
            v@ == self@[self.order()[i as int]],
    {
        proof {
            use_type_invariant(self);
            lemma_map_of_at(self.entries@, i as int);
        }
        &self.entries[i].value
    }

    fn position(&self, key: &str) -> (r: Option<usize>)
        ensures
            match r {
                Some(i) => i < self.entries@.len() && self.entries@[i as int].key@ == key@,
                None => !keys_of(self.entries@).contains(key@),
            },
    {
        let mut i: usize = 0;
        while i < self.entries.len()
            invariant
                i <= self.entries@.len(),
                forall|j: int| 0 <= j < i ==> self.entries@[j].key@ != key@,
            decreases self.entries@.len() - i,
        {
            if str_eq(self.entries[i].key.as_str(), key) {
                return Some(i);
            }
            i = i + 1;
        }
        None
    }

    /// Whether the map has an entry under `key`.
    pub fn contains_key(&self, key: &str) -> (b: bool)
        ensures
            b == self@.contains_key(key@),
    {
        let found = self.position(key);
        proof {
            if let Some(i) = found {
                assert(keys_of(self.entries@)[i as int] == key@);
            }
        }
        found.is_some()
    }

    /// The value under `key`, if there is one.
    pub fn get(&self, key: &str) -> (r: Option<&V>)
        ensures
            r is Some <==> self@.contains_key(key@),
            r matches Some(v) ==> v@ == self@[key@],
    {
        proof {
            use_type_invariant(self);
        }
        match self.position(key) {
            Some(i) => {
                proof {
                    lemma_map_of_at(self.entries@, i as int);
                }
                Some(&self.entries[i].value)
            },
            None => None,
        }
    }

    /// Files `value` under `key`. An entry that is already there keeps its
    /// place in `order`; a new one goes to the end.
    pub fn insert(&mut self, key: String, value: V)
        ensures
            final(self)@ == old(self)@.insert(key@, value@),
            final(self).order() == if old(self)@.contains_key(key@) {
                old(self).order()
            } else {
                old(self).order().push(key@)
            },
    {
        proof {
            use_type_invariant(&*self);
        }
        let found = self.position(key.as_str());
        let mut entries: Vec<Entry<V>> = Vec::new();
        std::mem::swap(&mut entries, &mut self.entries);
        let ghost before = entries@;
        let ghost k = key@;
        let ghost v = value@;
        match found {
            Some(i) => {
                entries.set(i, Entry { key, value });
                proof {
                    assert(keys_of(entries@) =~= keys_of(before));
                    assert(keys_of(before)[i as int] == k);
                    assert forall|q: Seq<char>| #[trigger]
                        map_of(entries@).contains_key(q) implies map_of(entries@)[q] == map_of(
                        before,
                    ).insert(k, v)[q] by {
                        let j = keys_of(entries@).index_of(q);
                        assert(keys_of(entries@)[j] == q);
                        lemma_map_of_at(entries@, j);
                        lemma_map_of_at(before, j);
                    }
                    assert(map_of(entries@) =~= map_of(before).insert(k, v));
                }
            },
            None => {
                entries.push(Entry { key, value });
                proof {
                    assert(keys_of(entries@) =~= keys_of(before).push(k));
                    assert(keys_of(entries@).no_duplicates()) by {
                        assert forall|a: int, b: int|
                            0 <= a < keys_of(entries@).len() && 0 <= b < keys_of(entries@).len()
                                && a != b implies keys_of(entries@)[a] != keys_of(entries@)[b] by {
                            if a < before.len() {
                                assert(keys_of(before)[a] == keys_of(entries@)[a]);
                            }
                            if b < before.len() {
                                assert(keys_of(before)[b] == keys_of(entries@)[b]);
                            }
                        }
                    }
                    assert forall|q: Seq<char>| #[trigger]
                        map_of(entries@).contains_key(q) implies map_of(entries@)[q] == map_of(
                        before,
                    ).insert(k, v)[q] by {
                        let j = keys_of(entries@).index_of(q);
                        assert(keys_of(entries@)[j] == q);
                        lemma_map_of_at(entries@, j);
                        if j < before.len() {
                            assert(keys_of(before)[j] == q);
                            lemma_map_of_at(before, j);
                        }
                    }
                    assert forall|q: Seq<char>| #[trigger]
                        map_of(before).insert(k, v).contains_key(q) implies map_of(
                        entries@,
                    ).contains_key(q) by {
                        if q == k {
                            assert(keys_of(entries@)[before.len() as int] == k);
                        } else {
                            let j = keys_of(before).index_of(q);
                            assert(keys_of(before)[j] == q);
                            assert(keys_of(entries@)[j] == q);
                        }
                    }
                    assert(map_of(entries@) =~= map_of(before).insert(k, v));
                }
            },
        }
        self.entries = entries;
    }

    /// Takes the entry under `key` out, if there is one.
    pub fn remove(&mut self, key: &str)
        ensures
            final(self)@ == old(self)@.remove(key@),
    {
        proof {
            use_type_invariant(&*self);
        }
        let found = self.position(key);
        let mut entries: Vec<Entry<V>> = Vec::new();
        std::mem::swap(&mut entries, &mut self.entries);
        let ghost before = entries@;
        match found {
            Some(i) => {
                let _gone = entries.remove(i);
                proof {
                    assert(keys_of(entries@) =~= keys_of(before).remove(i as int));
                    assert forall|a: int, b: int|
                        0 <= a < keys_of(entries@).len() && 0 <= b < keys_of(entries@).len() && a
                            != b implies keys_of(entries@)[a] != keys_of(entries@)[b] by {
                        let a0 = if a < i { a } else { a + 1 };
                        let b0 = if b < i { b } else { b + 1 };
                        assert(keys_of(before)[a0] == keys_of(entries@)[a]);
                        assert(keys_of(before)[b0] == keys_of(entries@)[b]);
                    }
                    assert forall|q: Seq<char>| #[trigger]
                        map_of(entries@).contains_key(q) implies map_of(before).remove(
                        key@,
                    ).contains_key(q) && map_of(entries@)[q] == map_of(before).remove(key@)[q] by {
                        let j = keys_of(entries@).index_of(q);
                        assert(keys_of(entries@)[j] == q);
                        let j0 = if j < i { j } else { j + 1 };
                        assert(keys_of(before)[j0] == q);
                        lemma_map_of_at(entries@, j);
                        lemma_map_of_at(before, j0);
                        lemma_map_of_at(before, i as int);
                    }
                    assert forall|q: Seq<char>| #[trigger]
                        map_of(before).remove(key@).contains_key(q) implies map_of(
                        entries@,
                    ).contains_key(q) by {
                        let j0 = keys_of(before).index_of(q);
                        assert(keys_of(before)[j0] == q);
                        let j = if j0 < i { j0 } else { j0 - 1 };
                        assert(keys_of(entries@)[j] == q);
                    }
                    assert(map_of(entries@) =~= map_of(before).remove(key@));
                }
            },
            None => {
                proof {
                    assert(map_of(before) =~= map_of(before).remove(key@));
                }
            },
        }
        self.entries = entries;
    }
}

} // verus!
