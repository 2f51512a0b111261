//! A small keyed store: an association list with unique keys, abstracted as a
//! `Map` from key views to value views.  The resource store and the operation
//! tracker are built on it.

use vstd::prelude::*;

verus! {

/// A key usable in a `KeyedMap`: executable equality agrees with view equality.
pub trait MapKey: View + Sized {
    fn key_eq(&self, other: &Self) -> (r: bool)
        ensures
            r == (self@ == other@),
    ;
}

impl MapKey for String {
    fn key_eq(&self, other: &Self) -> (r: bool)
        ensures
            r == (self@ == other@),
    {
        *self == *other
    }
}

/// The map abstraction of an association list.
pub open spec fn kv_map<K: View, V: View>(s: Seq<(K, V)>) -> Map<K::V, V::V>
    decreases s.len(),
{
    if s.len() == 0 {
        Map::empty()
    } else {
        kv_map(s.drop_last()).insert(s.last().0@, s.last().1@)
    }
}

/// No two entries share a key view.
pub open spec fn keys_unique<K: View, V: View>(s: Seq<(K, V)>) -> bool {
    forall|i: int, j: int| 0 <= i < j < s.len() ==> s[i].0@ != s[j].0@
}

/// The abstraction holds a key exactly when some entry holds it.
pub proof fn lemma_kv_map_contains<K: View, V: View>(s: Seq<(K, V)>, key: K::V)
    ensures
        kv_map(s).contains_key(key) <==> exists|i: int| 0 <= i < s.len() && s[i].0@ == key,
    decreases s.len(),
{
    if s.len() == 0 {
    } else {
        lemma_kv_map_contains(s.drop_last(), key);
        if s.last().0@ == key {
            assert(s[s.len() - 1].0@ == key);
        } else {
            if exists|i: int| 0 <= i < s.len() && s[i].0@ == key {
                let i = choose|i: int| 0 <= i < s.len() && s[i].0@ == key;
                assert(s.drop_last()[i].0@ == key);
            }
        }
    }
}

/// With unique keys, each entry is the one the abstraction maps its key to.
pub proof fn lemma_kv_map_index<K: View, V: View>(s: Seq<(K, V)>, i: int)
    requires
        keys_unique(s),
        0 <= i < s.len(),
    ensures
        kv_map(s).contains_key(s[i].0@),
        kv_map(s)[s[i].0@] == s[i].1@,
    decreases s.len(),
{
    if i == s.len() - 1 {
    } else {
        assert(keys_unique(s.drop_last())) by {
            assert forall|a: int, b: int|
                0 <= a < b < s.drop_last().len() implies s.drop_last()[a].0@
                != s.drop_last()[b].0@ by {
                assert(s[a].0@ != s[b].0@);
            }
        }
        lemma_kv_map_index(s.drop_last(), i);
        assert(s[i].0@ != s.last().0@);
    }
}

/// Appending a fresh entry inserts its pair into the abstraction.
pub proof fn lemma_kv_map_push<K: View, V: View>(s: Seq<(K, V)>, k: K, v: V)
    ensures
        kv_map(s.push((k, v))) == kv_map(s).insert(k@, v@),
{
    assert(s.push((k, v)).drop_last() =~= s);
    assert(s.push((k, v)).last() == (k, v));
}

/// Appending a fresh key keeps the keys unique.
pub proof fn lemma_push_unique<K: View, V: View>(s: Seq<(K, V)>, k: K, v: V)
    requires
        keys_unique(s),
        forall|i: int| 0 <= i < s.len() ==> s[i].0@ != k@,
    ensures
        keys_unique(s.push((k, v))),
{
    assert forall|a: int, b: int|
        0 <= a < b < s.push((k, v)).len() implies s.push((k, v))[a].0@ != s.push(
        (k, v),
    )[b].0@ by {
        if b < s.len() {
            assert(s[a].0@ != s[b].0@);
        } else {
            assert(s[a].0@ != k@);
        }
    }
}

/// Dropping the entry holding a key removes that key from the abstraction.
pub proof fn lemma_kv_map_remove<K: View, V: View>(s: Seq<(K, V)>, i: int)
    requires
        keys_unique(s),
        0 <= i < s.len(),
    ensures
        kv_map(s.remove(i)) == kv_map(s).remove(s[i].0@),
        keys_unique(s.remove(i)),
    decreases s.len(),
{
    let key = s[i].0@;
    assert forall|a: int, b: int|
        0 <= a < b < s.remove(i).len() implies s.remove(i)[a].0@ != s.remove(i)[b].0@ by {
        let a0 = if a < i { a } else { a + 1 };
        let b0 = if b < i { b } else { b + 1 };
        assert(s.remove(i)[a] == s[a0]);
        assert(s.remove(i)[b] == s[b0]);
        assert(s[a0].0@ != s[b0].0@);
    }
    if i == s.len() - 1 {
        assert(s.remove(i) =~= s.drop_last());
        lemma_kv_map_contains::<K, V>(s.drop_last(), key);
        assert(!kv_map(s.drop_last()).contains_key(key)) by {
            if exists|j: int| 0 <= j < s.drop_last().len() && s.drop_last()[j].0@ == key {
                let j = choose|j: int|
                    0 <= j < s.drop_last().len() && s.drop_last()[j].0@ == key;
                assert(s[j].0@ == s[i].0@);
                assert(false);
            }
        }
        assert(kv_map(s).remove(key) =~= kv_map(s.drop_last()));
    } else {
        assert(keys_unique(s.drop_last())) by {
            assert forall|a: int, b: int|
                0 <= a < b < s.drop_last().len() implies s.drop_last()[a].0@
                != s.drop_last()[b].0@ by {
                assert(s[a].0@ != s[b].0@);
            }
        }
        lemma_kv_map_remove(s.drop_last(), i);
        assert(s.remove(i).drop_last() =~= s.drop_last().remove(i));
        assert(s.remove(i).last() == s.last());
        assert(s.drop_last()[i] == s[i]);
        // the dropped key differs from the last entry's key
        assert(key != s.last().0@);
        assert(kv_map(s.drop_last()).remove(key).insert(s.last().0@, s.last().1@) =~= kv_map(
            s.drop_last(),
        ).insert(s.last().0@, s.last().1@).remove(key));
    }
}

/// An association list with unique keys, viewed as a `Map`.
pub struct KeyedMap<K, V> {
    pairs: Vec<(K, V)>,
}

impl<K: MapKey, V: View> View for KeyedMap<K, V> {
    type V = Map<<K as View>::V, <V as View>::V>;

    closed spec fn view(&self) -> Self::V {
        kv_map(self.pairs@)
    }
}

impl<K: MapKey, V: View> KeyedMap<K, V> {
    /// The keys of the underlying entries are unique.
    pub closed spec fn wf(&self) -> bool {
        keys_unique(self.pairs@)
    }

    pub fn new() -> (r: Self)
        ensures
            r.wf(),
            r@ == Map::<<K as View>::V, <V as View>::V>::empty(),
    {
        let r = KeyedMap { pairs: Vec::new() };
        proof {
            assert(r.pairs@.len() == 0);
        }
        r
    }

    fn find_idx(&self, key: &K) -> (r: Option<usize>)
        ensures
            match r {
                Some(i) => i < self.pairs@.len() && self.pairs@[i as int].0@ == key@,
                None => forall|i: int| 0 <= i < self.pairs@.len() ==> self.pairs@[i].0@ != key@,
            },
    {
        let mut i: usize = 0;
        while i < self.pairs.len()
            invariant
                i <= self.pairs@.len(),
                forall|j: int| 0 <= j < i ==> self.pairs@[j].0@ != key@,
            decreases self.pairs@.len() - i,
        {
            if self.pairs[i].0.key_eq(key) {
                return Some(i);
            }
            i = i + 1;
        }
        None
    }

    /// Looks a key up.
    pub fn get<'a>(&'a self, key: &K) -> (r: Option<&'a V>)
        requires
            self.wf(),
        ensures
            match r {
                Some(v) => self@.contains_key(key@) && v@ == self@[key@],
                None => !self@.contains_key(key@),
            },
    {
        match self.find_idx(key) {
            Some(i) => {
                proof {
                    lemma_kv_map_index(self.pairs@, i as int);
                }
                Some(&self.pairs[i].1)
            },
            None => {
                proof {
                    lemma_kv_map_contains(self.pairs@, key@);
                }
                None
            },
        }
    }

    /// Decides whether a key is present.
    pub fn contains(&self, key: &K) -> (r: bool)
        requires
            self.wf(),
        ensures
            r == self@.contains_key(key@),
    {
        match self.get(key) {
            Some(_) => true,
            None => false,
        }
    }

    /// Binds a key to a value, replacing any previous binding of it.
    pub fn insert(&mut self, key: K, value: V)
        requires
            old(self).wf(),
        ensures
            final(self).wf(),
            final(self)@ == old(self)@.insert(key@, value@),
    {
        match self.find_idx(&key) {
            Some(i) => {
                let ghost s0 = self.pairs@;
                proof {
                    lemma_kv_map_remove(self.pairs@, i as int);
                }
                self.pairs.remove(i);
                proof {
                    assert forall|j: int|
                        0 <= j < self.pairs@.len() implies self.pairs@[j].0@ != key@ by {
                        let j0 = if j < i { j } else { j + 1 };
                        assert(self.pairs@[j] == s0[j0]);
                        assert(s0[j0].0@ != s0[i as int].0@);
                    }
                    lemma_push_unique(self.pairs@, key, value);
                    lemma_kv_map_push(self.pairs@, key, value);
                    assert(kv_map(s0).remove(key@).insert(key@, value@) =~= kv_map(s0).insert(
                        key@,
                        value@,
                    ));
                }
                self.pairs.push((key, value));
            },
            None => {
                proof {
                    lemma_push_unique(self.pairs@, key, value);
                    lemma_kv_map_push(self.pairs@, key, value);
                }
                self.pairs.push((key, value));
            },
        }
    }

    /// Unbinds a key; absent keys are left alone.
    pub fn remove(&mut self, key: &K)
        requires
            old(self).wf(),
        ensures
            final(self).wf(),
            final(self)@ == old(self)@.remove(key@),
    {
        match self.find_idx(key) {
            Some(i) => {
                proof {
                    lemma_kv_map_remove(self.pairs@, i as int);
                }
                self.pairs.remove(i);
            },
            None => {
                proof {
                    lemma_kv_map_contains(self.pairs@, key@);
                    assert(self@ =~= self@.remove(key@));
                }
            },
        }
    }

    /// The raw entries, for scans; their abstraction is the map itself.
    pub fn entries(&self) -> (r: &Vec<(K, V)>)
        requires
            self.wf(),
        ensures
            kv_map(r@) == self@,
            keys_unique(r@),
    {
        &self.pairs
    }
}

} // verus!
