//! A map from strings to values.

use vstd::prelude::*;
use crate::string_set::{views_of, StringSet};

verus! {

/// The contents of a map of sets: each key with the items of its set, in order.
pub open spec fn sets_view(m: Map<Seq<char>, StringSet>) -> Map<Seq<char>, Seq<Seq<char>>> {
    Map::new(|k: Seq<char>| m.contains_key(k), |k: Seq<char>| m[k]@)
}

/// The contents of a map of strings.
pub open spec fn strings_view(m: Map<Seq<char>, String>) -> Map<Seq<char>, Seq<char>> {
    Map::new(|k: Seq<char>| m.contains_key(k), |k: Seq<char>| m[k]@)
}

/// Every set of the map is free of duplicates.
pub open spec fn sets_wf(m: Map<Seq<char>, StringSet>) -> bool {
    forall|k: Seq<char>| m.contains_key(k) ==> (#[trigger] m[k]).wf()
}

/// A map keyed by strings. It has no observable order.
#[derive(Debug, Clone)]
pub struct StrMap<V> {
    keys: Vec<String>,
    vals: Vec<V>,
}

impl<V> View for StrMap<V> {
    type V = Map<Seq<char>, V>;

    closed spec fn view(&self) -> Map<Seq<char>, V> {
        Map::new(
            |k: Seq<char>| views_of(self.keys@).contains(k),
            |k: Seq<char>| self.vals@[views_of(self.keys@).index_of(k)],
        )
    }
}

impl<V> StrMap<V> {
    /// Every key is stored once, beside its value.
    pub closed spec fn wf(&self) -> bool {
        &&& self.keys@.len() == self.vals@.len()
        &&& views_of(self.keys@).no_duplicates()
    }

    proof fn lemma_slot(&self, i: int)
        requires
            self.wf(),
            0 <= i < self.keys@.len(),
        ensures
            self@.contains_key(self.keys@[i]@),
            self@[self.keys@[i]@] == self.vals@[i],
    {
        let ks = views_of(self.keys@);
        assert(ks[i] == self.keys@[i]@);
        assert(ks.contains(ks[i]));
        assert(ks.index_of(ks[i]) == i);
    }

    pub fn new() -> (m: Self)
        ensures
            m@ == Map::<Seq<char>, V>::empty(),
            m.wf(),
    {
        let m = StrMap { keys: Vec::new(), vals: Vec::new() };
        assert(m@ =~= Map::<Seq<char>, V>::empty());
        m
    }

    fn position(&self, key: &String) -> (r: Option<usize>)
        requires
            self.wf(),
        ensures
            match r {
                Some(i) => i < self.keys@.len() && self.keys@[i as int]@ == key@,
                None => !self@.contains_key(key@),
            },
    {
        let mut i: usize = 0;
        while i < self.keys.len()
            invariant
                i <= self.keys.len(),
                forall|j: int| 0 <= j < i ==> views_of(self.keys@)[j] != key@,
            decreases self.keys.len() - i,
        {
            if self.keys[i] == *key {
                return Some(i);
            }
            i += 1;
        }
        None
    }

    pub fn contains_key(&self, key: &String) -> (b: bool)
        requires
            self.wf(),
        ensures
            b == self@.contains_key(key@),
    {
        match self.position(key) {
            Some(i) => {
                proof {
                    self.lemma_slot(i as int);
                }
                true
            },
            None => false,
        }
    }

    pub fn get(&self, key: &String) -> (r: Option<&V>)
        requires
            self.wf(),
        ensures
            match r {
                Some(v) => self@.contains_key(key@) && *v == self@[key@],
                None => !self@.contains_key(key@),
            },
    {
        match self.position(key) {
            Some(i) => {
                proof {
                    self.lemma_slot(i as int);
                }
                Some(&self.vals[i])
            },
            None => None,
        }
    }

    /// The keys of the map, each once, in no particular order.
    pub fn keys(&self) -> (out: Vec<String>)
        requires
            self.wf(),
        ensures
            views_of(out@).no_duplicates(),
            forall|k: Seq<char>| views_of(out@).contains(k) == self@.contains_key(k),
    {
        let mut out: Vec<String> = Vec::new();
        let mut i: usize = 0;
        while i < self.keys.len()
            invariant
                i <= self.keys.len(),
                out@.len() == i,
                forall|j: int| 0 <= j < i ==> out@[j]@ == self.keys@[j]@,
            decreases self.keys.len() - i,
        {
            out.push(self.keys[i].clone());
            i += 1;
        }
        assert(views_of(out@) =~= views_of(self.keys@));
        out
    }

    /// Takes the entry of `key` out of the map and returns its value.
    pub fn remove(&mut self, key: &String) -> (r: Option<V>)
        requires
            old(self).wf(),
        ensures
            final(self).wf(),
            final(self)@ == old(self)@.remove(key@),
            match r {
                Some(v) => old(self)@.contains_key(key@) && v == old(self)@[key@],
                None => !old(self)@.contains_key(key@) && *final(self) == *old(self),
            },
    {
        match self.position(key) {
            None => {
                assert(self@ =~= old(self)@.remove(key@));
                None
            },
            Some(i) => {
                proof {
                    self.lemma_slot(i as int);
                }
                let ghost n = self.keys@.len() as int;
                let _ = self.keys.swap_remove(i);
                let v = self.vals.swap_remove(i);
                proof {
                    let oks = views_of(old(self).keys@);
                    let nks = views_of(self.keys@);
                    assert(nks.len() == n - 1);
                    assert forall|a: int| 0 <= a < n - 1 implies #[trigger] nks[a] == (if a == i {
                        oks[n - 1]
                    } else {
                        oks[a]
                    }) by {}
                    assert(nks.no_duplicates());
                    assert forall|k: Seq<char>| #[trigger]
                        self@.contains_key(k) == old(self)@.remove(key@).contains_key(k) by {
                        assert(oks[i as int] == key@);
                        if nks.contains(k) {
                            let a = nks.index_of(k);
                            let b = if a == i { n - 1 } else { a };
                            assert(oks[b] == k);
                            assert(b != i);
                            assert(oks.contains(k));
                        }
                        if oks.contains(k) && k != key@ {
                            let b = oks.index_of(k);
                            assert(b != i);
                            assert(nks[if b == n - 1 { i as int } else { b }] == k);
                        }
                    }
                    assert forall|k: Seq<char>| #[trigger] self@.contains_key(k) implies self@[k]
                        == old(self)@[k] by {
                        let a = nks.index_of(k);
                        let b = if a == i { n - 1 } else { a };
                        assert(oks[b] == k);
                        assert(oks.index_of(k) == b);
                    }
                    assert(self@ =~= old(self)@.remove(key@));
                }
                Some(v)
            },
        }
    }

    /// Stores `val` under `key` and returns the value that was there before.
    pub fn insert(&mut self, key: String, val: V) -> (r: Option<V>)
        requires
            old(self).wf(),
        ensures
            final(self).wf(),
            final(self)@ == old(self)@.insert(key@, val),
            match r {
                Some(v) => old(self)@.contains_key(key@) && v == old(self)@[key@],
                None => !old(self)@.contains_key(key@),
            },
    {
        let r = self.remove(&key);
        let ghost mid = *self;
        self.keys.push(key);
        self.vals.push(val);
        proof {
            let mks = views_of(mid.keys@);
            let nks = views_of(self.keys@);
            let n = mks.len() as int;
            assert(nks =~= mks.push(key@));
            assert(!mid@.contains_key(key@));
            assert(!mks.contains(key@));
            assert(nks.no_duplicates());
            assert forall|k: Seq<char>| #[trigger]
                self@.contains_key(k) == mid@.insert(key@, val).contains_key(k) by {
                if nks.contains(k) {
                    let a = nks.index_of(k);
                    if a < n {
                        assert(mks[a] == k);
                    }
                }
                if mks.contains(k) {
                    let b = mks.index_of(k);
                    assert(nks[b] == k);
                }
                if k == key@ {
                    assert(nks[n] == k);
                }
            }
            assert forall|k: Seq<char>| #[trigger] self@.contains_key(k) implies self@[k]
                == mid@.insert(key@, val)[k] by {
                let a = nks.index_of(k);
                if a < n {
                    assert(mks[a] == k);
                    assert(mks.index_of(k) == a);
                }
            }
            assert(self@ =~= mid@.insert(key@, val));
            assert(mid@.insert(key@, val) =~= old(self)@.insert(key@, val));
        }
        r
    }
}

impl<V: Copy> StrMap<V> {
    /// A second map with the same entries.
    pub fn duplicate(&self) -> (m: Self)
        requires
            self.wf(),
        ensures
            m.wf(),
            m@ == self@,
    {
        let mut keys: Vec<String> = Vec::new();
        let mut vals: Vec<V> = Vec::new();
        let mut i: usize = 0;
        while i < self.keys.len()
            invariant
                self.wf(),
                i <= self.keys.len(),
                keys@.len() == i,
                vals@.len() == i,
                forall|j: int| 0 <= j < i ==> keys@[j]@ == self.keys@[j]@,
                forall|j: int| 0 <= j < i ==> vals@[j] == self.vals@[j],
            decreases self.keys.len() - i,
        {
            keys.push(self.keys[i].clone());
            vals.push(self.vals[i]);
            i += 1;
        }
        let m = StrMap { keys, vals };
        proof {
            assert(views_of(m.keys@) =~= views_of(self.keys@));
            assert(m.vals@ =~= self.vals@);
            assert(m@ =~= self@);
        }
        m
    }
}

} // verus!
