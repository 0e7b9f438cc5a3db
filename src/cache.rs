use vstd::prelude::*;

verus! {

/// One cached result: the query text and the handle under which the host
/// keeps the rows it produced.
pub struct CacheEntry {
    pub query: String,
    pub handle: u64,
}

/// An optional, bounded cache of query results keyed by the query text.
/// It never evicts: once full it stops storing, and a capacity of zero
/// disables it.
pub struct QueryCache {
    capacity: usize,
    entries: Vec<CacheEntry>,
}

impl QueryCache {
    /// The number of results the cache may hold.
    pub closed spec fn capacity_view(&self) -> nat {
        self.capacity as nat
    }

    /// The query texts cached, in the order stored.
    pub closed spec fn keys(&self) -> Seq<Seq<char>> {
        self.entries@.map_values(|e: CacheEntry| e.query@)
    }

    /// The handles cached, in the order stored.
    pub closed spec fn handles(&self) -> Seq<u64> {
        self.entries@.map_values(|e: CacheEntry| e.handle)
    }

    /// Each query text is cached at most once, and no more results than
    /// the capacity are held.
    pub open spec fn wf(&self) -> bool {
        &&& self.keys().len() == self.handles().len()
        &&& self.keys().len() <= self.capacity_view()
        &&& forall|i: int, j: int|
            0 <= i < j < self.keys().len() ==> self.keys()[i] != self.keys()[j]
    }

    /// The handle cached for query text `q`, if any.
    pub open spec fn cached(&self, q: Seq<char>) -> Option<u64> {
        if exists|i: int| 0 <= i < self.keys().len() && self.keys()[i] == q {
            let i = choose|i: int| 0 <= i < self.keys().len() && self.keys()[i] == q;
            Some(self.handles()[i])
        } else {
            None
        }
    }

    /// An empty cache for up to `capacity` results.
    pub fn new(capacity: usize) -> (r: QueryCache)
        ensures
            r.wf(),
            r.capacity_view() == capacity,
            r.keys().len() == 0,
            forall|q: Seq<char>| r.cached(q) is None,
    {
        QueryCache { capacity, entries: Vec::new() }
    }

    /// Number of cached results.
    pub fn len(&self) -> (r: usize)
        ensures
            r == self.keys().len(),
    {
        self.entries.len()
    }

    /// Looks up the handle cached for `query`.
    pub fn lookup(&self, query: &String) -> (r: Option<u64>)
        requires
            self.wf(),
        ensures
            r == self.cached(query@),
    {
        let mut i: usize = 0;
        while i < self.entries.len()
            invariant
                self.wf(),
                0 <= i <= self.entries@.len(),
                self.keys().len() == self.entries@.len(),
                forall|j: int| 0 <= j < i ==> self.keys()[j] != query@,
            decreases self.entries@.len() - i,
        {
            if self.entries[i].query == *query {
                proof {
                    assert(self.keys()[i as int] == query@);
                    let k = choose|k: int| 0 <= k < self.keys().len() && self.keys()[k] == query@;
                    if k != i as int {
                        if k < i {
                            assert(self.keys()[k] != self.keys()[i as int]);
                        } else {
                            assert(self.keys()[i as int] != self.keys()[k]);
                        }
                    }
                }
                return Some(self.entries[i].handle);
            }
            i = i + 1;
        }
        None
    }

    /// Stores `handle` as the result of `query`. A query already cached
    /// gets the new handle; a new one is stored only while the cache is
    /// below its capacity. Returns whether the handle was stored.
    pub fn insert(&mut self, query: String, handle: u64) -> (r: bool)
        requires
            old(self).wf(),
        ensures
            final(self).wf(),
            final(self).capacity_view() == old(self).capacity_view(),
            r == (old(self).cached(query@) is Some || old(self).keys().len() < old(self).capacity_view()),
            r ==> final(self).cached(query@) == Some(handle),
            !r ==> final(self).keys() == old(self).keys() && final(self).handles() == old(self).handles(),
            forall|q: Seq<char>| q != query@ ==> #[trigger] final(self).cached(q) == old(self).cached(q),
    {
        let ghost old_keys = self.keys();
        let ghost old_handles = self.handles();
        let ghost cap = self.capacity;
        let mut i: usize = 0;
        while i < self.entries.len()
            invariant
                self.wf(),
                self.keys() == old_keys,
                self.handles() == old_handles,
                self.capacity == cap,
                cap == old(self).capacity,
                old(self).keys() == old_keys,
                old(self).handles() == old_handles,
                0 <= i <= self.entries@.len(),
                self.keys().len() == self.entries@.len(),
                forall|j: int| 0 <= j < i ==> self.keys()[j] != query@,
            decreases self.entries@.len() - i,
        {
            if self.entries[i].query == query {
                let ghost before = *self;
                self.entries.set(i, CacheEntry { query, handle });
                proof {
                    assert(self.keys() =~= old_keys);
                    assert(self.handles() =~= old_handles.update(i as int, handle));
                    assert(self.keys()[i as int] == query@);
                    self.lemma_cached_at(i as int);
                    assert forall|q: Seq<char>| q != query@ implies #[trigger] self.cached(q)
                        == before.cached(q) by {
                        Self::lemma_other_keys_kept(*self, before, query@, q);
                    }
                    assert(old_keys[i as int] == query@);
                    assert(exists|k: int| 0 <= k < old_keys.len() && old_keys[k] == query@);
                }
                return true;
            }
            i = i + 1;
        }
        proof {
            assert(!exists|k: int| 0 <= k < old_keys.len() && old_keys[k] == query@);
        }
        if self.entries.len() >= self.capacity {
            return false;
        }
        let ghost before = *self;
        self.entries.push(CacheEntry { query, handle });
        proof {
            assert(self.keys() =~= old_keys.push(query@));
            assert(self.handles() =~= old_handles.push(handle));
            let n = old_keys.len() as int;
            self.lemma_cached_at(n);
            assert forall|q: Seq<char>| q != query@ implies #[trigger] self.cached(q) == before.cached(q) by {
                Self::lemma_other_keys_kept(*self, before, query@, q);
            }
        }
        true
    }

    /// When `new` keeps the keys of `old` in place, changes handles only
    /// under `key`, and adds only `key` after them, every other query text
    /// finds the same handle in both.
    proof fn lemma_other_keys_kept(new: Self, old: Self, key: Seq<char>, q: Seq<char>)
        requires
            new.wf(),
            old.wf(),
            q != key,
            old.keys().len() <= new.keys().len(),
            forall|k: int| 0 <= k < old.keys().len() ==> new.keys()[k] == old.keys()[k],
            forall|k: int|
                0 <= k < old.keys().len() && old.keys()[k] != key ==> new.handles()[k]
                    == old.handles()[k],
            forall|k: int| old.keys().len() <= k < new.keys().len() ==> new.keys()[k] == key,
        ensures
            new.cached(q) == old.cached(q),
    {
        if exists|k: int| 0 <= k < new.keys().len() && new.keys()[k] == q {
            let k = choose|k: int| 0 <= k < new.keys().len() && new.keys()[k] == q;
            new.lemma_cached_at(k);
            assert(k < old.keys().len());
            assert(old.keys()[k] == q);
            old.lemma_cached_at(k);
        } else {
            if exists|k: int| 0 <= k < old.keys().len() && old.keys()[k] == q {
                let k = choose|k: int| 0 <= k < old.keys().len() && old.keys()[k] == q;
                assert(new.keys()[k] == q);
            }
        }
    }

    /// In a well-formed cache the handle cached for the key at position
    /// `i` is the handle at that position.
    proof fn lemma_cached_at(&self, i: int)
        requires
            self.wf(),
            0 <= i < self.keys().len(),
        ensures
            self.cached(self.keys()[i]) == Some(self.handles()[i]),
    {
        let q = self.keys()[i];
        let k = choose|k: int| 0 <= k < self.keys().len() && self.keys()[k] == q;
        if k != i {
            if k < i {
                assert(self.keys()[k] != self.keys()[i]);
            } else {
                assert(self.keys()[i] != self.keys()[k]);
            }
        }
    }
}

} // verus!
