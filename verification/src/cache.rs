//! The identifier-keyed document cache.
//!
//! A [`DocCache`] maps string identifiers to values. Keys are unique; an
//! entry is created by [`DocCache::insert`], found by [`DocCache::get`] and
//! removed only by an explicit [`DocCache::remove`] — there is no automatic
//! eviction. Its mathematical model is a `Map<Seq<char>, V>`.

use vstd::prelude::*;

verus! {

/// An in-memory mapping from string identifiers to values, with unique keys.
pub struct DocCache<V> {
    keys: Vec<String>,
    vals: Vec<V>,
}

impl<V> View for DocCache<V> {
    type V = Map<Seq<char>, V>;

    /// The cache as a mathematical map from identifier to value.
    closed spec fn view(&self) -> Map<Seq<char>, V> {
        Map::new(
            |k: Seq<char>| self.key_seq().contains(k),
            |k: Seq<char>| self.vals@[self.key_seq().index_of(k)],
        )
    }
}

/// In a sequence of pairwise-distinct keys, `index_of` inverts indexing.
proof fn lemma_index_of_unique(s: Seq<Seq<char>>, i: int)
    requires
        forall|p: int, q: int| 0 <= p < q < s.len() ==> s[p] != s[q],
        0 <= i < s.len(),
    ensures
        s.index_of(s[i]) == i,
{
    assert(s.contains(s[i]));
    let j = s.index_of(s[i]);
    assert(0 <= j < s.len() && s[j] == s[i]);
    if j < i {
        assert(s[j] != s[i]);
    } else if i < j {
        assert(s[i] != s[j]);
    }
}

impl<V> DocCache<V> {
    /// The keys as a sequence of character sequences, in insertion order.
    pub closed spec fn key_seq(&self) -> Seq<Seq<char>> {
        self.keys@.map_values(|k: String| k@)
    }

    /// Well-formedness: one value per key, and keys pairwise distinct.
    pub closed spec fn wf(&self) -> bool {
        &&& self.keys@.len() == self.vals@.len()
        &&& forall|i: int, j: int|
            0 <= i < j < self.keys@.len() ==> self.keys@[i]@ != self.keys@[j]@
    }

    /// Creates an empty cache.
    pub fn new() -> (r: Self)
        ensures
            r.wf(),
            r@ == Map::<Seq<char>, V>::empty(),
    {
        let r = DocCache { keys: Vec::new(), vals: Vec::new() };
        proof {
            assert(r@ =~= Map::<Seq<char>, V>::empty());
        }
        r
    }

    /// Returns the position of `id` among the keys, if it is there.
    fn find_index(&self, id: &String) -> (r: Option<usize>)
        requires
            self.wf(),
        ensures
            match r {
                Some(i) => i < self.keys@.len() && self.keys@[i as int]@ == id@,
                None => !self.key_seq().contains(id@),
            },
    {
        let n = self.keys.len();
        let mut i: usize = 0;
        while i < n
            invariant
                n == self.keys@.len(),
                i <= n,
                forall|j: int| 0 <= j < i ==> self.keys@[j]@ != id@,
            decreases n - i,
        {
            if self.keys[i] == *id {
                return Some(i);
            }
            i = i + 1;
        }
        proof {
            assert(forall|j: int|
                0 <= j < self.key_seq().len() ==> self.key_seq()[j] != id@);
        }
        None
    }

    /// Read-only probe: the value under `id`, or `None` when the identifier
    /// was never inserted or has been removed since.
    pub fn get(&self, id: &String) -> (r: Option<&V>)
        requires
            self.wf(),
        ensures
            match r {
                Some(v) => self@.contains_key(id@) && *v == self@[id@],
                None => !self@.contains_key(id@),
            },
    {
        match self.find_index(id) {
            Some(i) => {
                proof {
                    assert(self.key_seq()[i as int] == id@);
                    lemma_index_of_unique(self.key_seq(), i as int);
                    assert(self@[id@] == self.vals@[i as int]);
                }
                Some(&self.vals[i])
            },
            None => None,
        }
    }

    /// Inserts `v` under `id` if the identifier is absent, and reports
    /// whether it did; a present entry is left exactly as it was.
    pub fn insert(&mut self, id: String, v: V) -> (r: bool)
        requires
            old(self).wf(),
        ensures
            final(self).wf(),
            r == !old(self)@.contains_key(id@),
            r ==> final(self)@ == old(self)@.insert(id@, v),
            !r ==> *final(self) == *old(self),
    {
        match self.find_index(&id) {
            Some(i) => {
                proof {
                    assert(self.key_seq()[i as int] == id@);
                    assert(self.key_seq().contains(id@));
                    assert(self@.contains_key(id@));
                }
                false
            },
            None => {
                let ghost old_keys = self.key_seq();
                let ghost old_view = self@;
                proof {
                    assert(!old_view.contains_key(id@));
                }
                self.keys.push(id);
                self.vals.push(v);
                proof {
                    let ks = self.key_seq();
                    assert(ks =~= old_keys.push(id@));
                    assert(!old_keys.contains(id@));
                    assert forall|p: int, q: int| 0 <= p < q < self.keys@.len()
                        implies self.keys@[p]@ != self.keys@[q]@ by {
                        assert(ks[p] == self.keys@[p]@);
                        assert(ks[q] == self.keys@[q]@);
                        if q < old_keys.len() {
                            assert(old_keys[p] == old(self).keys@[p]@);
                            assert(old_keys[q] == old(self).keys@[q]@);
                        } else {
                            assert(ks[q] == id@);
                            if ks[p] == id@ {
                                assert(old_keys[p] == id@);
                                assert(old_keys.contains(id@));
                            }
                        }
                    }
                    assert forall|k: Seq<char>| #[trigger] old_keys.contains(k)
                        implies ks.contains(k) by {
                        let j = choose|j: int|
                            0 <= j < old_keys.len() && old_keys[j] == k;
                        assert(ks[j] == k);
                    }
                    assert forall|k: Seq<char>| #[trigger] ks.contains(k)
                        implies old_keys.contains(k) || k == id@ by {
                        let j = choose|j: int| 0 <= j < ks.len() && ks[j] == k;
                        if j < old_keys.len() {
                            assert(old_keys[j] == k);
                        }
                    }
                    assert(ks[old_keys.len() as int] == id@);
                    assert(ks.contains(id@));
                    assert forall|k: Seq<char>| #[trigger] ks.contains(k)
                        implies self@[k] == old_view.insert(id@, v)[k] by {
                        if k == id@ {
                            lemma_index_of_unique(ks, old_keys.len() as int);
                            assert(self@[k] == self.vals@[old_keys.len() as int]);
                        } else {
                            let j = choose|j: int|
                                0 <= j < old_keys.len() && old_keys[j] == k;
                            assert(ks[j] == k);
                            lemma_index_of_unique(ks, j);
                            lemma_index_of_unique(old_keys, j);
                            assert(old_view[k] == old(self).vals@[j]);
                        }
                    }
                    assert(self@ =~= old_view.insert(id@, v));
                }
                true
            },
        }
    }

    /// Removes the entry under `id` and reports whether one was there;
    /// removing an absent identifier changes nothing.
    pub fn remove(&mut self, id: &String) -> (r: bool)
        requires
            old(self).wf(),
        ensures
            final(self).wf(),
            r == old(self)@.contains_key(id@),
            final(self)@ == old(self)@.remove(id@),
    {
        match self.find_index(id) {
            None => {
                proof {
                    assert(self@ =~= self@.remove(id@));
                }
                false
            },
            Some(i) => {
                let ghost old_keys = self.key_seq();
                let ghost old_view = self@;
                self.keys.remove(i);
                self.vals.remove(i);
                proof {
                    let ks = self.key_seq();
                    assert(ks =~= old_keys.remove(i as int));
                    assert(forall|j: int|
                        0 <= j < ks.len() ==> ks[j] == (if j < i {
                            old_keys[j]
                        } else {
                            old_keys[j + 1]
                        }));
                    assert forall|p: int, q: int| 0 <= p < q < self.keys@.len()
                        implies self.keys@[p]@ != self.keys@[q]@ by {
                        assert(ks[p] == self.keys@[p]@);
                        assert(ks[q] == self.keys@[q]@);
                    }
                    assert(old_keys[i as int] == id@);
                    assert forall|k: Seq<char>| #[trigger] ks.contains(k)
                        implies old_keys.contains(k) && k != id@ by {
                        let j = choose|j: int| 0 <= j < ks.len() && ks[j] == k;
                        if j < i {
                            assert(old_keys[j] == k);
                        } else {
                            assert(old_keys[j + 1] == k);
                        }
                    }
                    assert forall|k: Seq<char>|
                        #[trigger] old_keys.contains(k) && k != id@
                        implies ks.contains(k) by {
                        let j = choose|j: int|
                            0 <= j < old_keys.len() && old_keys[j] == k;
                        lemma_index_of_unique(old_keys, i as int);
                        lemma_index_of_unique(old_keys, j);
                        if j < i {
                            assert(ks[j] == k);
                        } else {
                            assert(j != i);
                            assert(ks[j - 1] == k);
                        }
                    }
                    assert forall|k: Seq<char>| #[trigger] ks.contains(k)
                        implies self@[k] == old_view.remove(id@)[k] by {
                        let j = choose|j: int| 0 <= j < ks.len() && ks[j] == k;
                        lemma_index_of_unique(ks, j);
                        if j < i {
                            assert(old_keys[j] == k);
                            lemma_index_of_unique(old_keys, j);
                            assert(old_view[k] == old(self).vals@[j]);
                            assert(self.vals@[j] == old(self).vals@[j]);
                        } else {
                            assert(old_keys[j + 1] == k);
                            lemma_index_of_unique(old_keys, j + 1);
                            assert(old_view[k] == old(self).vals@[j + 1]);
                            assert(self.vals@[j] == old(self).vals@[j + 1]);
                        }
                    }
                    assert(self@ =~= old_view.remove(id@));
                }
                true
            },
        }
    }
}

} // verus!
