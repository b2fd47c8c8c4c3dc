//! The ledger's backing store: an association list with unique keys,
//! read in specifications as a finite map.

use vstd::prelude::*;

verus! {

/// No two entries of `s` share a key.
pub open spec fn dup_free<V>(s: Seq<(u64, V)>) -> bool {
    forall|i: int, j: int|
        0 <= i < j < s.len() ==> (#[trigger] s[i]).0 != (#[trigger] s[j]).0
}

/// Some entry of `s` carries key `k`.
pub open spec fn has_key<V>(s: Seq<(u64, V)>, k: u64) -> bool {
    exists|i: int| 0 <= i < s.len() && (#[trigger] s[i]).0 == k
}

/// The index of an entry of `s` with key `k`, where one exists.
pub open spec fn key_index<V>(s: Seq<(u64, V)>, k: u64) -> int {
    choose|i: int| 0 <= i < s.len() && (#[trigger] s[i]).0 == k
}

/// The association list read as a map from keys to values.
pub open spec fn assoc_view<V>(s: Seq<(u64, V)>) -> Map<u64, V> {
    Map::new(|k: u64| has_key(s, k), |k: u64| s[key_index(s, k)].1)
}

/// How many entries of `s` carry key `k`.
pub open spec fn key_count<V>(s: Seq<(u64, V)>, k: u64) -> nat
    decreases s.len(),
{
    if s.len() == 0 {
        0
    } else {
        key_count(s.drop_last(), k) + (if s.last().0 == k { 1nat } else { 0nat })
    }
}

/// In a duplicate-free association list, the entry with key `k` found at
/// index `i` is the one the map view reads.
proof fn lemma_key_index_is<V>(s: Seq<(u64, V)>, k: u64, i: int)
    requires
        dup_free(s),
        0 <= i < s.len(),
        s[i].0 == k,
    ensures
        has_key(s, k),
        key_index(s, k) == i,
        assoc_view(s).dom().contains(k),
        assoc_view(s)[k] == s[i].1,
{
    assert(has_key(s, k));
    let j = key_index(s, k);
    assert(0 <= j < s.len() && s[j].0 == k);
    if i < j {
        assert(s[i].0 != s[j].0);
    } else if j < i {
        assert(s[j].0 != s[i].0);
    }
}

/// A key missing from every entry is missing from the map view.
proof fn lemma_not_has_key<V>(s: Seq<(u64, V)>, k: u64)
    requires
        forall|i: int| 0 <= i < s.len() ==> (#[trigger] s[i]).0 != k,
    ensures
        !has_key(s, k),
        !assoc_view(s).dom().contains(k),
{
}

/// Appending an entry under a fresh key inserts it into the map view.
proof fn lemma_push_entry<V>(s: Seq<(u64, V)>, k: u64, v: V)
    requires
        dup_free(s),
        !has_key(s, k),
    ensures
        dup_free(s.push((k, v))),
        assoc_view(s.push((k, v))) =~= assoc_view(s).insert(k, v),
{
    let t = s.push((k, v));
    assert(t[s.len() as int] == (k, v));
    assert(forall|i: int| 0 <= i < s.len() ==> t[i] == s[i]);
    assert(forall|i: int| 0 <= i < s.len() ==> (#[trigger] s[i]).0 != k);
    assert forall|i: int, j: int| 0 <= i < j < t.len() implies (#[trigger] t[i]).0
        != (#[trigger] t[j]).0 by {
        if j == s.len() {
            assert(t[i] == s[i]);
        } else {
            assert(t[i] == s[i] && t[j] == s[j]);
        }
    }
    assert forall|k2: u64| #[trigger] has_key(t, k2) implies has_key(s, k2) || k2 == k by {
        let i = key_index(t, k2);
        assert(0 <= i < t.len() && t[i].0 == k2);
        if i < s.len() {
            assert(t[i] == s[i]);
            assert(has_key(s, k2));
        }
    }
    assert forall|k2: u64| #[trigger] has_key(s, k2) implies has_key(t, k2) by {
        let i = key_index(s, k2);
        assert(0 <= i < s.len() && s[i].0 == k2);
        assert(t[i] == s[i]);
        assert(has_key(t, k2));
    }
    assert(t[s.len() as int].0 == k);
    assert(has_key(t, k));
    assert forall|k2: u64| #[trigger] has_key(t, k2) implies assoc_view(t)[k2] == assoc_view(
        s,
    ).insert(k, v)[k2] by {
        if k2 == k {
            lemma_key_index_is(t, k, s.len() as int);
        } else {
            let i = key_index(s, k2);
            assert(0 <= i < s.len() && s[i].0 == k2);
            assert(t[i] == s[i]);
            lemma_key_index_is(t, k2, i);
            lemma_key_index_is(s, k2, i);
        }
    }
    assert(assoc_view(t) =~= assoc_view(s).insert(k, v));
}

/// Deleting the entry at index `i` removes its key from the map view and
/// leaves every other key bound as before.
proof fn lemma_remove_entry<V>(s: Seq<(u64, V)>, i: int)
    requires
        dup_free(s),
        0 <= i < s.len(),
    ensures
        dup_free(s.remove(i)),
        assoc_view(s.remove(i)) =~= assoc_view(s).remove(s[i].0),
{
    let t = s.remove(i);
    let k = s[i].0;
    s.remove_ensures(i);
    assert(forall|j: int| 0 <= j < i ==> #[trigger] t[j] == s[j]);
    assert(forall|j: int| i <= j < t.len() ==> #[trigger] t[j] == s[j + 1]);
    assert forall|j1: int, j2: int| 0 <= j1 < j2 < t.len() implies (#[trigger] t[j1]).0
        != (#[trigger] t[j2]).0 by {
        let a = if j1 < i { j1 } else { j1 + 1 };
        let b = if j2 < i { j2 } else { j2 + 1 };
        assert(t[j1] == s[a]);
        assert(t[j2] == s[b]);
    }
    assert forall|k2: u64| #[trigger] has_key(t, k2) implies has_key(s, k2) && k2 != k
        && assoc_view(t)[k2] == assoc_view(s)[k2] by {
        let j = key_index(t, k2);
        assert(0 <= j < t.len() && t[j].0 == k2);
        let a = if j < i { j } else { j + 1 };
        assert(t[j] == s[a]);
        lemma_key_index_is(s, k2, a);
        if k2 == k {
            if a < i {
                assert(s[a].0 != s[i].0);
            } else {
                assert(s[i].0 != s[a].0);
            }
            assert(false);
        }
        lemma_key_index_is(t, k2, j);
    }
    assert forall|k2: u64| has_key(s, k2) && k2 != k implies #[trigger] has_key(t, k2) by {
        let a = key_index(s, k2);
        assert(0 <= a < s.len() && s[a].0 == k2);
        assert(a != i);
        let j = if a < i { a } else { a - 1 };
        assert(t[j] == s[a]);
        assert(has_key(t, k2));
    }
    assert(assoc_view(t) =~= assoc_view(s).remove(k));
}

/// A key that no entry carries is counted zero times.
proof fn lemma_key_count_zero<V>(s: Seq<(u64, V)>, k: u64)
    requires
        forall|i: int| 0 <= i < s.len() ==> (#[trigger] s[i]).0 != k,
    ensures
        key_count(s, k) == 0,
    decreases s.len(),
{
    if s.len() > 0 {
        let t = s.drop_last();
        assert forall|i: int| 0 <= i < t.len() implies (#[trigger] t[i]).0 != k by {
            assert(t[i] == s[i]);
        }
        assert(s.last() == s[s.len() - 1]);
        lemma_key_count_zero(t, k);
    }
}

/// A duplicate-free association list counts every key at most once.
pub proof fn lemma_dup_free_key_count<V>(s: Seq<(u64, V)>, k: u64)
    requires
        dup_free(s),
    ensures
        key_count(s, k) <= 1,
    decreases s.len(),
{
    if s.len() > 0 {
        let t = s.drop_last();
        assert(forall|i: int| 0 <= i < t.len() ==> #[trigger] t[i] == s[i]);
        assert forall|i: int, j: int| 0 <= i < j < t.len() implies (#[trigger] t[i]).0
            != (#[trigger] t[j]).0 by {
            assert(t[i] == s[i] && t[j] == s[j]);
        }
        assert(s.last() == s[s.len() - 1]);
        if s.last().0 == k {
            assert forall|i: int| 0 <= i < t.len() implies (#[trigger] t[i]).0 != k by {
                assert(t[i] == s[i]);
                assert(s[i].0 != s[s.len() - 1].0);
            }
            lemma_key_count_zero(t, k);
        } else {
            lemma_dup_free_key_count(t, k);
        }
    }
}

/// A key-to-value store with unique keys, backed by a vector of entries.
pub struct KeyMap<V> {
    entries: Vec<(u64, V)>,
}

impl<V> View for KeyMap<V> {
    type V = Map<u64, V>;

    open spec fn view(&self) -> Map<u64, V> {
        assoc_view(self.entries_seq())
    }
}

impl<V> KeyMap<V> {
    /// The backing entries in storage order.
    pub closed spec fn entries_seq(&self) -> Seq<(u64, V)> {
        self.entries@
    }

    /// Well-formed: no key is stored twice.
    pub open spec fn wf(&self) -> bool {
        dup_free(self.entries_seq())
    }

    /// An empty store.
    pub fn new() -> (r: Self)
        ensures
            r.wf(),
            r@ == Map::<u64, V>::empty(),
            r.entries_seq() == Seq::<(u64, V)>::empty(),
    {
        let r = KeyMap { entries: Vec::new() };
        proof {
            assert(r@ =~= Map::<u64, V>::empty());
        }
        r
    }

    /// The storage position of the entry carrying `k`, where one is.
    fn index_of(&self, k: u64) -> (r: Option<usize>)
        ensures
            match r {
                Some(i) => i < self.entries@.len() && self.entries@[i as int].0 == k,
                None => forall|j: int|
                    0 <= j < self.entries@.len() ==> (#[trigger] self.entries@[j]).0 != k,
            },
    {
        let n = self.entries.len();
        let mut idx: usize = 0;
        while idx < n
            invariant
                n == self.entries@.len(),
                idx <= n,
                forall|j: int| 0 <= j < idx ==> (#[trigger] self.entries@[j]).0 != k,
            decreases n - idx,
        {
            if self.entries[idx].0 == k {
                return Some(idx);
            }
            idx += 1;
        }
        None
    }

    /// Whether `k` is bound.
    pub fn contains_key(&self, k: u64) -> (r: bool)
        ensures
            r == self@.dom().contains(k),
    {
        match self.index_of(k) {
            Some(i) => {
                proof {
                    assert(has_key(self.entries@, k));
                }
                true
            },
            None => {
                proof {
                    lemma_not_has_key(self.entries@, k);
                }
                false
            },
        }
    }

    /// The value bound to `k`, where one is.
    pub fn get(&self, k: u64) -> (r: Option<&V>)
        requires
            self.wf(),
        ensures
            match r {
                Some(v) => self@.dom().contains(k) && *v == self@[k],
                None => !self@.dom().contains(k),
            },
    {
        match self.index_of(k) {
            Some(i) => {
                proof {
                    lemma_key_index_is(self.entries@, k, i as int);
                }
                Some(&self.entries[i].1)
            },
            None => {
                proof {
                    lemma_not_has_key(self.entries@, k);
                }
                None
            },
        }
    }

    /// Unbinds `k`, returning the value it was bound to.
    pub fn remove(&mut self, k: u64) -> (r: Option<V>)
        requires
            old(self).wf(),
        ensures
            final(self).wf(),
            final(self)@ == old(self)@.remove(k),
            match r {
                Some(v) => old(self)@.dom().contains(k) && v == old(self)@[k],
                None => !old(self)@.dom().contains(k) && *final(self) == *old(self),
            },
    {
        let ghost s = self.entries@;
        match self.index_of(k) {
            Some(i) => {
                proof {
                    lemma_key_index_is(s, k, i as int);
                }
                let entry = self.entries.remove(i);
                proof {
                    lemma_remove_entry(s, i as int);
                }
                Some(entry.1)
            },
            None => {
                proof {
                    lemma_not_has_key(s, k);
                    assert(assoc_view(s).remove(k) =~= assoc_view(s));
                }
                None
            },
        }
    }

    /// Binds `k` to `v`, replacing any earlier binding.
    pub fn insert(&mut self, k: u64, v: V)
        requires
            old(self).wf(),
        ensures
            final(self).wf(),
            final(self)@ == old(self)@.insert(k, v),
    {
        let _ = self.remove(k);
        let ghost s = self.entries@;
        proof {
            lemma_not_has_key_from_view(s, k);
            lemma_push_entry(s, k, v);
        }
        self.entries.push((k, v));
        proof {
            assert(old(self)@.remove(k).insert(k, v) =~= old(self)@.insert(k, v));
        }
    }
}

/// A key outside the map view's domain is carried by no entry.
proof fn lemma_not_has_key_from_view<V>(s: Seq<(u64, V)>, k: u64)
    requires
        !assoc_view(s).dom().contains(k),
    ensures
        !has_key(s, k),
{
}

} // verus!
