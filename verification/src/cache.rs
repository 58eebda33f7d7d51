//! The in-memory execution cache: a mapping from execution identifier to the
//! last record the gateway saw, viewed in specifications as a `Map`.

use vstd::prelude::*;

use crate::execution::ExecutionResponse;

verus! {

struct CacheEntry {
    key: u128,
    value: ExecutionResponse,
}

/// The mapping a sequence of entries denotes: each entry binds its key, later
/// entries winning.
spec fn map_of(s: Seq<CacheEntry>) -> Map<u128, ExecutionResponse>
    decreases s.len(),
{
    if s.len() == 0 {
        Map::empty()
    } else {
        map_of(s.drop_last()).insert(s.last().key, s.last().value)
    }
}

spec fn keys_unique(s: Seq<CacheEntry>) -> bool {
    forall|i: int, j: int| 0 <= i < j < s.len() ==> s[i].key != s[j].key
}

proof fn lemma_map_of_contains(s: Seq<CacheEntry>, k: u128)
    ensures
        map_of(s).contains_key(k) <==> exists|i: int| 0 <= i < s.len() && s[i].key == k,
    decreases s.len(),
{
    if s.len() > 0 {
        lemma_map_of_contains(s.drop_last(), k);
        if s.last().key == k {
            assert(s[s.len() - 1].key == k);
        } else {
            if map_of(s).contains_key(k) {
                let i = choose|i: int|
                    0 <= i < s.drop_last().len() && s.drop_last()[i].key == k;
                assert(s[i].key == k);
            }
            if exists|i: int| 0 <= i < s.len() && s[i].key == k {
                let i = choose|i: int| 0 <= i < s.len() && s[i].key == k;
                assert(s.drop_last()[i].key == k);
            }
        }
    }
}

proof fn lemma_map_of_index(s: Seq<CacheEntry>, k: u128, i: int)
    requires
        keys_unique(s),
        0 <= i < s.len(),
        s[i].key == k,
    ensures
        map_of(s).contains_key(k),
        map_of(s)[k] == s[i].value,
    decreases s.len(),
{
    if i < s.len() - 1 {
        assert(s.last().key != k);
        assert(s.drop_last()[i].key == k);
        lemma_map_of_index(s.drop_last(), k, i);
    }
}

proof fn lemma_map_of_remove(s: Seq<CacheEntry>, i: int)
    requires
        keys_unique(s),
        0 <= i < s.len(),
    ensures
        map_of(s.remove(i)) == map_of(s).remove(s[i].key),
    decreases s.len(),
{
    let k = s[i].key;
    if i == s.len() - 1 {
        assert(s.remove(i) =~= s.drop_last());
        lemma_map_of_contains(s.drop_last(), k);
        assert(forall|j: int| 0 <= j < s.drop_last().len() ==> s.drop_last()[j] == s[j]);
        assert(!map_of(s.drop_last()).contains_key(k));
        assert(map_of(s).remove(k) =~= map_of(s.drop_last()));
    } else {
        let dl = s.drop_last();
        assert(forall|j: int| 0 <= j < dl.len() ==> dl[j] == s[j]);
        assert(s.remove(i) =~= dl.remove(i).push(s.last()));
        assert(dl.remove(i).push(s.last()).drop_last() =~= dl.remove(i));
        lemma_map_of_remove(dl, i);
        assert(s.last().key != k);
        assert(map_of(dl).remove(k).insert(s.last().key, s.last().value) =~= map_of(dl).insert(
            s.last().key,
            s.last().value,
        ).remove(k));
    }
}

/// The gateway's volatile cache of execution records, keyed by execution
/// identifier. It is the single in-process source of truth for what the
/// gateway currently believes about each execution.
pub struct ExecutionCache {
    entries: Vec<CacheEntry>,
}

impl View for ExecutionCache {
    type V = Map<u128, ExecutionResponse>;

    closed spec fn view(&self) -> Map<u128, ExecutionResponse> {
        map_of(self.entries@)
    }
}

impl ExecutionCache {
    /// Internally, each identifier is bound by at most one entry.
    pub closed spec fn wf(&self) -> bool {
        keys_unique(self.entries@)
    }

    /// An empty cache.
    pub fn new() -> (r: Self)
        ensures
            r@ == Map::<u128, ExecutionResponse>::empty(),
            r.wf(),
    {
        ExecutionCache { entries: Vec::new() }
    }

    fn find_index(&self, key: u128) -> (r: Option<usize>)
        ensures
            match r {
                Some(i) => i < self.entries@.len() && self.entries@[i as int].key == key,
                None => forall|j: int| 0 <= j < self.entries@.len() ==> self.entries@[j].key != key,
            },
    {
        let n = self.entries.len();
        let mut i: usize = 0;
        while i < n
            invariant
                i <= n,
                n == self.entries@.len(),
                forall|j: int| 0 <= j < i ==> self.entries@[j].key != key,
            decreases n - i,
        {
            if self.entries[i].key == key {
                return Some(i);
            }
            i = i + 1;
        }
        None
    }

    /// Look an execution up; `Some` exactly when the cache binds the key, and
    /// then the bound record.
    pub fn get(&self, key: u128) -> (r: Option<&ExecutionResponse>)
        requires
            self.wf(),
        ensures
            match r {
                Some(v) => self@.contains_key(key) && *v == self@[key],
                None => !self@.contains_key(key),
            },
    {
        match self.find_index(key) {
            Some(i) => {
                proof {
                    lemma_map_of_index(self.entries@, key, i as int);
                }
                Some(&self.entries[i].value)
            },
            None => {
                proof {
                    lemma_map_of_contains(self.entries@, key);
                }
                None
            },
        }
    }

    /// Bind a key to a record, overwriting any earlier binding.
    pub fn insert(&mut self, key: u128, value: ExecutionResponse)
        requires
            old(self).wf(),
        ensures
            final(self).wf(),
            final(self)@ == old(self)@.insert(key, value),
    {
        let ghost s0 = self.entries@;
        match self.find_index(key) {
            Some(i) => {
                self.entries.remove(i);
                proof {
                    lemma_map_of_remove(s0, i as int);
                    assert forall|a: int, b: int|
                        0 <= a < b < self.entries@.len() implies self.entries@[a].key
                        != self.entries@[b].key by {
                        assert(self.entries@[a] == if a < i {
                            s0[a]
                        } else {
                            s0[a + 1]
                        });
                        assert(self.entries@[b] == if b < i {
                            s0[b]
                        } else {
                            s0[b + 1]
                        });
                    }
                    assert forall|j: int| 0 <= j < self.entries@.len() implies self.entries@[j].key
                        != key by {
                        assert(self.entries@[j] == if j < i {
                            s0[j]
                        } else {
                            s0[j + 1]
                        });
                    }
                }
                let ghost s1 = self.entries@;
                self.entries.push(CacheEntry { key, value });
                proof {
                    assert(self.entries@.drop_last() =~= s1);
                    assert(map_of(s0).remove(key).insert(key, value) =~= map_of(s0).insert(
                        key,
                        value,
                    ));
                }
            },
            None => {
                self.entries.push(CacheEntry { key, value });
                proof {
                    assert(self.entries@.drop_last() =~= s0);
                }
            },
        }
    }
}

} // verus!
