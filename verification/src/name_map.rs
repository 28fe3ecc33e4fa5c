//! An insertion-ordered map from names to values, held as a list of entries
//! whose keys are pairwise distinct.
//!
//! The map is described by two models: [`NameMap::entries`], the sequence of
//! `(key, value)` views in insertion order, and the view, the mathematical map
//! built from that sequence by [`map_of`].

use vstd::prelude::*;

verus! {

/// A value that can be copied without changing its view.
pub trait Duplicate: View + Sized {
    fn duplicate(&self) -> (copy: Self)
        ensures
            copy@ == self@,
    ;
}

/// A name that can identify an entry: two keys are the same key exactly when
/// their views are equal.
pub trait Key: Duplicate {
    fn same_as(&self, other: &Self) -> (same: bool)
        ensures
            same == (self@ == other@),
    ;
}

impl Duplicate for String {
    fn duplicate(&self) -> (copy: Self) {
        self.clone()
    }
}

impl Key for String {
    fn same_as(&self, other: &Self) -> (same: bool) {
        *self == *other
    }
}

/// No key occurs twice in `s`.
pub open spec fn distinct_keys<A, B>(s: Seq<(A, B)>) -> bool {
    forall|i: int, j: int| 0 <= i < j < s.len() ==> (#[trigger] s[i]).0 != (#[trigger] s[j]).0
}

/// The map that results from inserting the entries of `s` one after the other.
pub open spec fn map_of<A, B>(s: Seq<(A, B)>) -> Map<A, B>
    decreases s.len(),
{
    if s.len() == 0 {
        Map::empty()
    } else {
        map_of(s.drop_last()).insert(s.last().0, s.last().1)
    }
}

/// A key is in `map_of(s)` exactly when some entry of `s` carries it.
pub proof fn lemma_map_of_contains<A, B>(s: Seq<(A, B)>, k: A)
    ensures
        map_of(s).contains_key(k) <==> exists|i: int| 0 <= i < s.len() && (#[trigger] s[i]).0 == k,
    decreases s.len(),
{
    if s.len() > 0 {
        let front = s.drop_last();
        lemma_map_of_contains(front, k);
        if map_of(s).contains_key(k) {
            if s.last().0 == k {
                assert(s[s.len() - 1].0 == k);
            } else {
                let i = choose|i: int| 0 <= i < front.len() && (#[trigger] front[i]).0 == k;
                assert(s[i].0 == k);
            }
        }
        if exists|i: int| 0 <= i < s.len() && (#[trigger] s[i]).0 == k {
            let i = choose|i: int| 0 <= i < s.len() && (#[trigger] s[i]).0 == k;
            if i < s.len() - 1 {
                assert(front[i].0 == k);
            }
        }
    }
}

/// With distinct keys, every entry of `s` is an entry of `map_of(s)`.
pub proof fn lemma_map_of_index<A, B>(s: Seq<(A, B)>, i: int)
    requires
        distinct_keys(s),
        0 <= i < s.len(),
    ensures
        map_of(s).contains_key(s[i].0),
        map_of(s)[s[i].0] == s[i].1,
    decreases s.len(),
{
    let front = s.drop_last();
    if i < s.len() - 1 {
        assert(distinct_keys(front)) by {
            assert forall|a: int, b: int| 0 <= a < b < front.len() implies (#[trigger] front[a]).0
                != (#[trigger] front[b]).0 by {
                assert(s[a].0 != s[b].0);
            }
        }
        lemma_map_of_index(front, i);
        assert(front[i] == s[i]);
        assert(s[i].0 != s[s.len() - 1].0);
    }
}

/// Taking one more entry inserts that entry.
pub proof fn lemma_map_of_take_next<A, B>(s: Seq<(A, B)>, n: int)
    requires
        0 <= n < s.len(),
    ensures
        map_of(s.take(n + 1)) == map_of(s.take(n)).insert(s[n].0, s[n].1),
{
    assert(s.take(n + 1).drop_last() =~= s.take(n));
}

/// With distinct keys, the entry at position `n` is not among those before it.
pub proof fn lemma_map_of_take_fresh<A, B>(s: Seq<(A, B)>, n: int)
    requires
        distinct_keys(s),
        0 <= n < s.len(),
    ensures
        !map_of(s.take(n)).contains_key(s[n].0),
{
    let front = s.take(n);
    lemma_map_of_contains(front, s[n].0);
    if map_of(front).contains_key(s[n].0) {
        let i = choose|i: int| 0 <= i < front.len() && (#[trigger] front[i]).0 == s[n].0;
        assert(s[i].0 != s[n].0);
    }
}

/// With distinct keys, replacing the value of one entry updates the map at its key.
pub proof fn lemma_map_of_update<A, B>(s: Seq<(A, B)>, i: int, v: B)
    requires
        distinct_keys(s),
        0 <= i < s.len(),
    ensures
        distinct_keys(s.update(i, (s[i].0, v))),
        map_of(s.update(i, (s[i].0, v))) == map_of(s).insert(s[i].0, v),
{
    let k = s[i].0;
    let t = s.update(i, (k, v));
    assert(distinct_keys(t)) by {
        assert forall|a: int, b: int| 0 <= a < b < t.len() implies (#[trigger] t[a]).0 != (
        #[trigger] t[b]).0 by {
            assert(s[a].0 != s[b].0);
        }
    }
    assert forall|x: A| map_of(t).contains_key(x) <==> map_of(s).insert(k, v).contains_key(x) by {
        lemma_map_of_contains(t, x);
        lemma_map_of_contains(s, x);
        if map_of(t).contains_key(x) {
            let j = choose|j: int| 0 <= j < t.len() && (#[trigger] t[j]).0 == x;
            assert(s[j].0 == x);
        }
        if map_of(s).contains_key(x) {
            let j = choose|j: int| 0 <= j < s.len() && (#[trigger] s[j]).0 == x;
            assert(t[j].0 == x);
        }
        if x == k {
            assert(t[i].0 == x);
        }
    }
    assert forall|x: A| map_of(t).contains_key(x) implies map_of(t)[x] == map_of(s).insert(k, v)[x] by {
        lemma_map_of_contains(t, x);
        let j = choose|j: int| 0 <= j < t.len() && (#[trigger] t[j]).0 == x;
        lemma_map_of_index(t, j);
        lemma_map_of_index(s, j);
    }
    assert(map_of(t) =~= map_of(s).insert(k, v));
}

/// The views of a list of entries.
spec fn entry_views<K: View, V: View>(pairs: Seq<(K, V)>) -> Seq<(K::V, V::V)> {
    pairs.map_values(|e: (K, V)| (e.0@, e.1@))
}

/// A map from names to values that remembers the order of insertion.
///
/// No two entries carry the same key. Derived equality compares the entries
/// in order, so two maps built by the same insertions are equal.
#[derive(Debug, PartialEq, Eq)]
pub struct NameMap<K: Key, V: View> {
    pairs: Vec<(K, V)>,
}

impl<K: Key, V: View> View for NameMap<K, V> {
    type V = Map<K::V, V::V>;

    open spec fn view(&self) -> Map<K::V, V::V> {
        map_of(self.entries())
    }
}

impl<K: Key, V: View> NameMap<K, V> {
    #[verifier::type_invariant]
    spec fn keys_are_distinct(&self) -> bool {
        distinct_keys(self.entries())
    }

    /// The views of the entries, in insertion order.
    pub closed spec fn entries(&self) -> Seq<(K::V, V::V)> {
        entry_views(self.pairs@)
    }

    /// The empty map.
    pub fn new() -> (m: Self)
        ensures
            m.entries() == Seq::<(K::V, V::V)>::empty(),
            m@ == Map::<K::V, V::V>::empty(),
    {
        let m = NameMap { pairs: Vec::new() };
        assert(m.entries() =~= Seq::<(K::V, V::V)>::empty());
        m
    }

    /// The number of entries.
    pub fn len(&self) -> (n: usize)
        ensures
            n == self.entries().len(),
            distinct_keys(self.entries()),
    {
        proof {
            use_type_invariant(self);
        }
        self.pairs.len()
    }

    /// Whether the map has no entry.
    pub fn is_empty(&self) -> (empty: bool)
        ensures
            empty == (self.entries().len() == 0),
            empty == (self@ == Map::<K::V, V::V>::empty()),
    {
        proof {
            if self.entries().len() > 0 {
                lemma_map_of_contains(self.entries(), self.entries()[0].0);
                assert(self@.contains_key(self.entries()[0].0));
            }
        }
        self.pairs.len() == 0
    }

    /// The entry at position `i` in insertion order, if there is one.
    pub fn get_index(&self, i: usize) -> (entry: Option<(&K, &V)>)
        ensures
            distinct_keys(self.entries()),
            match entry {
                Some((k, v)) => i < self.entries().len() && (k@, v@) == self.entries()[i as int],
                None => i >= self.entries().len(),
            },
    {
        proof {
            use_type_invariant(self);
        }
        if i < self.pairs.len() {
            Some((&self.pairs[i].0, &self.pairs[i].1))
        } else {
            None
        }
    }

    /// The position of the entry with key `k`, if there is one.
    fn position(&self, k: &K) -> (at: Option<usize>)
        ensures
            distinct_keys(self.entries()),
            match at {
                Some(i) => i < self.entries().len() && self.entries()[i as int].0 == k@,
                None => !self@.contains_key(k@),
            },
    {
        proof {
            use_type_invariant(self);
        }
        let mut i: usize = 0;
        while i < self.pairs.len()
            invariant
                i <= self.pairs.len(),
                distinct_keys(self.entries()),
                forall|j: int| 0 <= j < i ==> (#[trigger] self.entries()[j]).0 != k@,
            decreases self.pairs.len() - i,
        {
            if self.pairs[i].0.same_as(k) {
                return Some(i);
            }
            i += 1;
        }
        proof {
            lemma_map_of_contains(self.entries(), k@);
        }
        None
    }

    /// The value stored under `k`, if there is one.
    pub fn get(&self, k: &K) -> (found: Option<&V>)
        ensures
            match found {
                Some(v) => self@.contains_key(k@) && self@[k@] == v@,
                None => !self@.contains_key(k@),
            },
    {
        match self.position(k) {
            Some(i) => {
                proof {
                    lemma_map_of_index(self.entries(), i as int);
                }
                Some(&self.pairs[i].1)
            },
            None => None,
        }
    }

    /// Whether a value is stored under `k`.
    pub fn contains_key(&self, k: &K) -> (found: bool)
        ensures
            found == self@.contains_key(k@),
    {
        match self.position(k) {
            Some(i) => {
                proof {
                    lemma_map_of_index(self.entries(), i as int);
                }
                true
            },
            None => false,
        }
    }

    /// Stores `v` under `k`. An entry that already carries the key keeps its
    /// position and takes the new value; otherwise the entry is added last.
    pub fn insert(&mut self, k: K, v: V)
        ensures
            final(self)@ == old(self)@.insert(k@, v@),
            !old(self)@.contains_key(k@) ==> final(self).entries() == old(self).entries().push(
                (k@, v@),
            ),
            forall|i: int|
                0 <= i < old(self).entries().len() && (#[trigger] old(self).entries()[i]).0 == k@
                    ==> final(self).entries() == old(self).entries().update(i, (k@, v@)),
    {
        let at = self.position(&k);
        let ghost before = self.entries();
        proof {
            lemma_map_of_contains(before, k@);
        }
        let mut taken = NameMap::new();
        core::mem::swap(self, &mut taken);
        let mut pairs = taken.pairs;
        match at {
            Some(i) => {
                proof {
                    lemma_map_of_update(before, i as int, v@);
                    lemma_map_of_index(before, i as int);
                    assert forall|j: int| 0 <= j < before.len() && (#[trigger] before[j]).0
                        == k@ implies j == i by {
                        if j < i {
                            assert(before[j].0 != before[i as int].0);
                        } else if i < j {
                            assert(before[i as int].0 != before[j].0);
                        }
                    }
                    assert(before.update(i as int, (k@, v@)) =~= entry_views(
                        pairs@.update(i as int, (k, v)),
                    ));
                }
                pairs.set(i, (k, v));
            },
            None => {
                proof {
                    lemma_map_of_contains(before, k@);
                    assert(before.push((k@, v@)) =~= entry_views(pairs@.push((k, v))));
                    assert(before.push((k@, v@)).drop_last() =~= before);
                    assert(distinct_keys(before.push((k@, v@))));
                }
                pairs.push((k, v));
            },
        }
        *self = NameMap { pairs };
    }
}

impl<K: Key, V: Duplicate> Duplicate for NameMap<K, V> {
    /// A copy with the same entries in the same order.
    fn duplicate(&self) -> (copy: Self)
        ensures
            copy.entries() == self.entries(),
    {
        proof {
            use_type_invariant(self);
        }
        let mut pairs: Vec<(K, V)> = Vec::new();
        let mut i: usize = 0;
        while i < self.pairs.len()
            invariant
                i <= self.pairs.len(),
                pairs@.len() == i,
                forall|j: int|
                    0 <= j < i ==> (#[trigger] pairs@[j]).0@ == self.pairs@[j].0@ && pairs@[j].1@
                        == self.pairs@[j].1@,
            decreases self.pairs.len() - i,
        {
            pairs.push((self.pairs[i].0.duplicate(), self.pairs[i].1.duplicate()));
            i += 1;
        }
        assert(entry_views(pairs@) =~= self.entries());
        NameMap { pairs }
    }
}

} // verus!
