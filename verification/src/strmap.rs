//! A small map keyed by strings, kept as a vector of distinct keys.
//!
//! The client state keys many tables by channel, user or DM id. This map
//! gives those tables a mathematical model, `Map<Seq<char>, V>`, over the
//! characters of the key.

use vstd::prelude::*;

verus! {

/// A map from strings to values; its entries never repeat a key.
#[derive(Debug)]
pub struct StrMap<V> {
    entries: Vec<(String, V)>,
}

/// Keys of `s` never repeat.
pub open spec fn distinct_keys<V>(s: Seq<(String, V)>) -> bool {
    forall|i: int, j: int| 0 <= i < j < s.len() ==> #[trigger] s[i].0@ != #[trigger] s[j].0@
}

/// `k` is the key of some entry of `s`.
pub open spec fn seq_has_key<V>(s: Seq<(String, V)>, k: Seq<char>) -> bool {
    exists|i: int| 0 <= i < s.len() && #[trigger] s[i].0@ == k
}

/// Some entry of `s` keyed `k`.
pub open spec fn seq_index_of<V>(s: Seq<(String, V)>, k: Seq<char>) -> int {
    choose|i: int| 0 <= i < s.len() && #[trigger] s[i].0@ == k
}

/// The map that a sequence of entries stands for.
pub open spec fn seq_view<V>(s: Seq<(String, V)>) -> Map<Seq<char>, V> {
    Map::new(|k: Seq<char>| seq_has_key(s, k), |k: Seq<char>| s[seq_index_of(s, k)].1)
}

proof fn lemma_view_at<V>(s: Seq<(String, V)>, i: int)
    requires
        distinct_keys(s),
        0 <= i < s.len(),
    ensures
        seq_view(s).dom().contains(s[i].0@),
        seq_view(s)[s[i].0@] == s[i].1,
        seq_index_of(s, s[i].0@) == i,
{
    assert(seq_has_key(s, s[i].0@));
    let j = seq_index_of(s, s[i].0@);
    if j != i {
        if j < i {
            assert(s[j].0@ != s[i].0@);
        } else {
            assert(s[i].0@ != s[j].0@);
        }
    }
}

impl<V> StrMap<V> {
    #[verifier::type_invariant]
    spec fn keys_distinct(self) -> bool {
        distinct_keys(self.entries@)
    }

    /// The map that the entries stand for.
    pub closed spec fn view(self) -> Map<Seq<char>, V> {
        seq_view(self.entries@)
    }

    /// An empty map.
    pub fn new() -> (m: Self)
        ensures
            m@ == Map::<Seq<char>, V>::empty(),
    {
        let m = StrMap { entries: Vec::new() };
        assert(m@ =~= Map::<Seq<char>, V>::empty());
        m
    }

    /// Number of keys.
    pub fn len(&self) -> (n: usize)
        ensures
            n == self@.dom().len(),
            self@.dom().finite(),
    {
        proof {
            use_type_invariant(self);
            lemma_dom_len(self.entries@);
        }
        self.entries.len()
    }

    /// Whether `k` is a key.
    pub fn contains_key(&self, k: &str) -> (b: bool)
        ensures
            b == self@.dom().contains(k@),
    {
        find_in(&self.entries, k).is_some()
    }

    /// The value stored under `k`.
    pub fn get(&self, k: &str) -> (r: Option<&V>)
        ensures
            match r {
                Some(v) => self@.dom().contains(k@) && *v == self@[k@],
                None => !self@.dom().contains(k@),
            },
    {
        proof {
            use_type_invariant(self);
        }
        match find_in(&self.entries, k) {
            Some(i) => {
                proof {
                    lemma_view_at(self.entries@, i as int);
                }
                Some(&self.entries[i].1)
            },
            None => None,
        }
    }

    /// Stores `v` under `k`, replacing what was there.
    pub fn insert(&mut self, k: String, v: V)
        ensures
            final(self)@ == old(self)@.insert(k@, v),
    {
        proof {
            use_type_invariant(&*self);
        }
        let ghost before = self.entries@;
        let ghost kv = k@;
        let mut entries: Vec<(String, V)> = Vec::new();
        std::mem::swap(&mut entries, &mut self.entries);
        match find_in(&entries, k.as_str()) {
            Some(i) => {
                entries.set(i, (k, v));
                proof {
                    lemma_update_view(before, i as int, entries@[i as int]);
                    assert(entries@ =~= before.update(i as int, entries@[i as int]));
                }
            },
            None => {
                entries.push((k, v));
                proof {
                    lemma_push_view(before, entries@.last());
                    assert(entries@ =~= before.push(entries@.last()));
                }
            },
        }
        self.entries = entries;
    }

    /// Removes `k` and hands back what was stored under it.
    pub fn remove(&mut self, k: &str) -> (r: Option<V>)
        ensures
            final(self)@ == old(self)@.remove(k@),
            match r {
                Some(v) => old(self)@.dom().contains(k@) && v == old(self)@[k@],
                None => !old(self)@.dom().contains(k@),
            },
    {
        proof {
            use_type_invariant(&*self);
        }
        let ghost before = self.entries@;
        let mut entries: Vec<(String, V)> = Vec::new();
        std::mem::swap(&mut entries, &mut self.entries);
        let r = match find_in(&entries, k) {
            Some(i) => {
                proof {
                    lemma_view_at(before, i as int);
                    lemma_remove_view(before, i as int);
                }
                let (_key, v) = entries.remove(i);
                Some(v)
            },
            None => {
                assert(seq_view(before) =~= seq_view(before).remove(k@));
                None
            },
        };
        self.entries = entries;
        r
    }

    /// Removes every key.
    pub fn clear(&mut self)
        ensures
            final(self)@ == Map::<Seq<char>, V>::empty(),
    {
        self.entries = Vec::new();
        assert(self@ =~= Map::<Seq<char>, V>::empty());
    }

    /// The keys, each once.
    pub fn keys(&self) -> (ks: Vec<String>)
        ensures
            forall|i: int| 0 <= i < ks@.len() ==> self@.dom().contains(#[trigger] ks@[i]@),
            forall|q: Seq<char>|
                self@.dom().contains(q) ==> exists|i: int| 0 <= i < ks@.len() && #[trigger] ks@[i]@ == q,
            ks@.len() == self@.dom().len(),
            forall|i: int, j: int| 0 <= i < j < ks@.len() ==> (#[trigger] ks@[i])@ != (#[trigger] ks@[j])@,
    {
        proof {
            use_type_invariant(self);
            lemma_dom_len(self.entries@);
        }
        let mut ks: Vec<String> = Vec::new();
        let mut i: usize = 0;
        while i < self.entries.len()
            invariant
                distinct_keys(self.entries@),
                i <= self.entries@.len(),
                ks@.len() == i,
                forall|j: int| 0 <= j < i ==> #[trigger] ks@[j]@ == self.entries@[j].0@,
            decreases self.entries@.len() - i,
        {
            ks.push(self.entries[i].0.clone());
            i = i + 1;
        }
        proof {
            assert forall|j: int| 0 <= j < ks@.len() implies self@.dom().contains(#[trigger] ks@[j]@) by {
                lemma_view_at(self.entries@, j);
            }
            assert forall|q: Seq<char>| self@.dom().contains(q) implies exists|j: int|
                0 <= j < ks@.len() && #[trigger] ks@[j]@ == q by {
                let j = seq_index_of(self.entries@, q);
                assert(ks@[j]@ == q);
            }
        }
        ks
    }
}

proof fn lemma_dom_len<V>(s: Seq<(String, V)>)
    requires
        distinct_keys(s),
    ensures
        seq_view(s).dom().finite(),
        seq_view(s).dom().len() == s.len(),
{
    let keys = Seq::new(s.len(), |i: int| s[i].0@);
    assert(seq_view(s).dom() =~= keys.to_set()) by {
        assert forall|k: Seq<char>| seq_view(s).dom().contains(k) implies keys.to_set().contains(k) by {
            let i = seq_index_of(s, k);
            assert(keys[i] == k);
        }
        assert forall|k: Seq<char>| keys.to_set().contains(k) implies seq_view(s).dom().contains(k) by {
            let i = choose|i: int| 0 <= i < keys.len() && keys[i] == k;
            assert(s[i].0@ == k);
        }
    }
    assert(keys.no_duplicates()) by {
        assert forall|i: int, j: int|
            0 <= i < keys.len() && 0 <= j < keys.len() && i != j implies keys[i] != keys[j] by {
            if i < j {
                assert(s[i].0@ != s[j].0@);
            } else {
                assert(s[j].0@ != s[i].0@);
            }
        }
    }
    keys.unique_seq_to_set();
}

proof fn lemma_update_view<V>(s: Seq<(String, V)>, i: int, e: (String, V))
    requires
        distinct_keys(s),
        0 <= i < s.len(),
        e.0@ == s[i].0@,
    ensures
        distinct_keys(s.update(i, e)),
        seq_view(s.update(i, e)) == seq_view(s).insert(e.0@, e.1),
{
    let t = s.update(i, e);
    assert forall|a: int, b: int| 0 <= a < b < t.len() implies #[trigger] t[a].0@ != #[trigger] t[b].0@ by {
        assert(s[a].0@ != s[b].0@);
    }
    assert forall|q: Seq<char>| #[trigger] seq_view(t).dom().contains(q) == seq_view(s).insert(
        e.0@,
        e.1,
    ).dom().contains(q) by {
        if seq_has_key(t, q) {
            let j = seq_index_of(t, q);
            assert(s[j].0@ == q);
        }
        if seq_has_key(s, q) {
            let j = seq_index_of(s, q);
            assert(t[j].0@ == q);
        }
        if q == e.0@ {
            assert(t[i].0@ == q);
        }
    }
    assert forall|q: Seq<char>| seq_view(t).dom().contains(q) implies seq_view(t)[q] == seq_view(
        s,
    ).insert(e.0@, e.1)[q] by {
        let j = seq_index_of(t, q);
        lemma_view_at(t, j);
        if j != i {
            lemma_view_at(s, j);
        }
    }
    assert(seq_view(t) =~= seq_view(s).insert(e.0@, e.1));
}

proof fn lemma_push_view<V>(s: Seq<(String, V)>, e: (String, V))
    requires
        distinct_keys(s),
        !seq_has_key(s, e.0@),
    ensures
        distinct_keys(s.push(e)),
        seq_view(s.push(e)) == seq_view(s).insert(e.0@, e.1),
{
    let t = s.push(e);
    let n = s.len() as int;
    assert forall|a: int, b: int| 0 <= a < b < t.len() implies #[trigger] t[a].0@ != #[trigger] t[b].0@ by {
        if b < n {
            assert(s[a].0@ != s[b].0@);
        } else {
            assert(s[a].0@ == t[a].0@);
        }
    }
    assert forall|q: Seq<char>| #[trigger] seq_view(t).dom().contains(q) == seq_view(s).insert(
        e.0@,
        e.1,
    ).dom().contains(q) by {
        if seq_has_key(t, q) {
            let j = seq_index_of(t, q);
            if j < n {
                assert(s[j].0@ == q);
            }
        }
        if seq_has_key(s, q) {
            let j = seq_index_of(s, q);
            assert(t[j].0@ == q);
        }
        if q == e.0@ {
            assert(t[n].0@ == q);
        }
    }
    assert forall|q: Seq<char>| seq_view(t).dom().contains(q) implies seq_view(t)[q] == seq_view(
        s,
    ).insert(e.0@, e.1)[q] by {
        let j = seq_index_of(t, q);
        lemma_view_at(t, j);
        if j < n {
            lemma_view_at(s, j);
        }
    }
    assert(seq_view(t) =~= seq_view(s).insert(e.0@, e.1));
}

proof fn lemma_remove_view<V>(s: Seq<(String, V)>, i: int)
    requires
        distinct_keys(s),
        0 <= i < s.len(),
    ensures
        distinct_keys(s.remove(i)),
        seq_view(s.remove(i)) == seq_view(s).remove(s[i].0@),
{
    let t = s.remove(i);
    let k = s[i].0@;
    assert forall|a: int, b: int| 0 <= a < b < t.len() implies #[trigger] t[a].0@ != #[trigger] t[b].0@ by {
        let oa = if a < i { a } else { a + 1 };
        let ob = if b < i { b } else { b + 1 };
        assert(t[a] == s[oa]);
        assert(t[b] == s[ob]);
        assert(s[oa].0@ != s[ob].0@);
    }
    assert forall|q: Seq<char>| #[trigger] seq_view(t).dom().contains(q) == seq_view(s).remove(
        k,
    ).dom().contains(q) by {
        if seq_has_key(t, q) {
            let j = seq_index_of(t, q);
            let oj = if j < i { j } else { j + 1 };
            assert(t[j] == s[oj]);
            assert(s[oj].0@ == q);
            if q == k {
                if oj < i {
                    assert(s[oj].0@ != s[i].0@);
                } else {
                    assert(s[i].0@ != s[oj].0@);
                }
            }
        }
        if seq_has_key(s, q) && q != k {
            let j = seq_index_of(s, q);
            assert(j != i);
            let nj = if j < i { j } else { j - 1 };
            assert(t[nj] == s[j]);
            assert(t[nj].0@ == q);
        }
    }
    assert forall|q: Seq<char>| seq_view(t).dom().contains(q) implies seq_view(t)[q] == seq_view(
        s,
    ).remove(k)[q] by {
        let j = seq_index_of(t, q);
        lemma_view_at(t, j);
        let oj = if j < i { j } else { j + 1 };
        assert(t[j] == s[oj]);
        lemma_view_at(s, oj);
    }
    assert(seq_view(t) =~= seq_view(s).remove(k));
}

impl<V: Clone> Clone for StrMap<V> {
    /// A copy with the same keys; each value is cloned.
    fn clone(&self) -> (r: Self)
        ensures
            r@.dom() == self@.dom(),
            forall|k: Seq<char>| #[trigger] r@.dom().contains(k) ==> cloned::<V>(self@[k], r@[k]),
    {
        proof {
            use_type_invariant(self);
        }
        let mut entries: Vec<(String, V)> = Vec::new();
        let mut i: usize = 0;
        while i < self.entries.len()
            invariant
                distinct_keys(self.entries@),
                i <= self.entries@.len(),
                entries@.len() == i,
                forall|j: int| 0 <= j < i ==> #[trigger] entries@[j].0@ == self.entries@[j].0@,
                forall|j: int| 0 <= j < i ==> cloned::<V>(self.entries@[j].1, #[trigger] entries@[j].1),
            decreases self.entries@.len() - i,
        {
            let k = self.entries[i].0.clone();
            let v = self.entries[i].1.clone();
            entries.push((k, v));
            i = i + 1;
        }
        proof {
            assert forall|a: int, b: int| 0 <= a < b < entries@.len() implies #[trigger] entries@[a].0@
                != #[trigger] entries@[b].0@ by {
                assert(self.entries@[a].0@ != self.entries@[b].0@);
            }
            assert(seq_view(entries@).dom() =~= seq_view(self.entries@).dom()) by {
                assert forall|q: Seq<char>| seq_has_key(entries@, q) == seq_has_key(self.entries@, q) by {
                    if seq_has_key(entries@, q) {
                        let j = seq_index_of(entries@, q);
                        assert(self.entries@[j].0@ == q);
                    }
                    if seq_has_key(self.entries@, q) {
                        let j = seq_index_of(self.entries@, q);
                        assert(entries@[j].0@ == q);
                    }
                }
            }
            assert forall|q: Seq<char>| #[trigger] seq_view(entries@).dom().contains(q) implies cloned::<
                V,
            >(seq_view(self.entries@)[q], seq_view(entries@)[q]) by {
                let j = seq_index_of(self.entries@, q);
                lemma_view_at(self.entries@, j);
                lemma_view_at(entries@, j);
            }
        }
        StrMap { entries }
    }
}

/// Position of the entry keyed `k`, over the raw entries.
fn find_in<V>(entries: &Vec<(String, V)>, k: &str) -> (r: Option<usize>)
    ensures
        match r {
            Some(i) => i < entries@.len() && entries@[i as int].0@ == k@,
            None => forall|j: int| 0 <= j < entries@.len() ==> #[trigger] entries@[j].0@ != k@,
        },
{
    let mut i: usize = 0;
    while i < entries.len()
        invariant
            i <= entries@.len(),
            forall|j: int| 0 <= j < i ==> #[trigger] entries@[j].0@ != k@,
        decreases entries@.len() - i,
    {
        if entries[i].0.as_str().eq(k) {
            return Some(i);
        }
        i = i + 1;
    }
    None
}

} // verus!
