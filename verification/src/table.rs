//! A keyed table: the storage maps of the pallet, held as a vector of
//! entries with pairwise distinct keys and viewed as a mathematical `Map`.
use vstd::prelude::*;

verus! {

/// Keys of a [`Table`]: plain values with an executable equality test.
pub trait TableKey: Sized + Copy {
    fn same_key(&self, other: &Self) -> (r: bool)
        ensures
            r == (*self == *other),
    ;
}

/// Byte-wise comparison of two 32-byte hashes.
pub fn hash_eq(a: &[u8; 32], b: &[u8; 32]) -> (r: bool)
    ensures
        r == (*a == *b),
{
    broadcast use vstd::array::group_array_axioms;

    let mut i: usize = 0;
    while i < 32
        invariant
            0 <= i <= 32,
            forall|j: int| 0 <= j < i ==> a[j] == b[j],
        decreases 32 - i,
    {
        if a[i] != b[i] {
            return false;
        }
        i = i + 1;
    }
    assert(*a =~= *b);
    true
}

impl TableKey for [u8; 32] {
    fn same_key(&self, other: &Self) -> (r: bool) {
        hash_eq(self, other)
    }
}

/// Key of a proposal: the call hash and the origin that proposed it.
#[derive(Clone, Copy, Debug)]
pub struct ProposalKey {
    pub hash: [u8; 32],
    pub origin_id: u64,
}

/// Key of an approval: the proposal's key and the approving origin.
#[derive(Clone, Copy, Debug)]
pub struct ApprovalKey {
    pub hash: [u8; 32],
    pub origin_id: u64,
    pub approval_origin_id: u64,
}

impl TableKey for ProposalKey {
    fn same_key(&self, other: &Self) -> (r: bool) {
        self.origin_id == other.origin_id && hash_eq(&self.hash, &other.hash)
    }
}

impl TableKey for ApprovalKey {
    fn same_key(&self, other: &Self) -> (r: bool) {
        self.origin_id == other.origin_id && self.approval_origin_id == other.approval_origin_id
            && hash_eq(&self.hash, &other.hash)
    }
}

/// A finite map from keys to values.
pub struct Table<K, V> {
    entries: Vec<(K, V)>,
}

impl<K: TableKey, V: View> Table<K, V> {
    /// Keys are pairwise distinct.
    pub closed spec fn wf(&self) -> bool {
        forall|i: int, j: int|
            0 <= i < self.entries@.len() && 0 <= j < self.entries@.len() && i != j
                ==> #[trigger] self.entries@[i].0 != #[trigger] self.entries@[j].0
    }

    spec fn has(&self, k: K) -> bool {
        exists|i: int| 0 <= i < self.entries@.len() && #[trigger] self.entries@[i].0 == k
    }

    spec fn index_of(&self, k: K) -> int {
        choose|i: int| 0 <= i < self.entries@.len() && #[trigger] self.entries@[i].0 == k
    }

    /// The contents of the table.
    pub closed spec fn map(&self) -> Map<K, V::V> {
        Map::new(|k: K| self.has(k), |k: K| self.entries@[self.index_of(k)].1@)
    }

    proof fn lemma_index(&self, i: int)
        requires
            self.wf(),
            0 <= i < self.entries@.len(),
        ensures
            self.map().contains_key(self.entries@[i].0),
            self.map()[self.entries@[i].0] == self.entries@[i].1@,
            self.index_of(self.entries@[i].0) == i,
    {
        let k = self.entries@[i].0;
        assert(self.has(k));
        let j = self.index_of(k);
        assert(self.entries@[j].0 == k);
    }

    /// An empty table.
    pub fn new() -> (t: Self)
        ensures
            t.wf(),
            t.map() == Map::<K, V::V>::empty(),
    {
        let t = Table { entries: Vec::new() };
        assert(t.map() =~= Map::<K, V::V>::empty());
        t
    }

    fn find(&self, k: &K) -> (r: Option<usize>)
        requires
            self.wf(),
        ensures
            match r {
                Some(i) => i < self.entries@.len() && self.entries@[i as int].0 == *k,
                None => !self.map().contains_key(*k),
            },
    {
        let mut i: usize = 0;
        while i < self.entries.len()
            invariant
                0 <= i <= self.entries@.len(),
                forall|j: int| 0 <= j < i ==> self.entries@[j].0 != *k,
            decreases self.entries@.len() - i,
        {
            if self.entries[i].0.same_key(k) {
                return Some(i);
            }
            i = i + 1;
        }
        None
    }

    /// Whether the table holds an entry for `k`.
    pub fn contains_key(&self, k: &K) -> (r: bool)
        requires
            self.wf(),
        ensures
            r == self.map().contains_key(*k),
    {
        match self.find(k) {
            Some(i) => {
                proof {
                    self.lemma_index(i as int);
                }
                true
            },
            None => false,
        }
    }

    /// The value stored under `k`, if any.
    pub fn get(&self, k: &K) -> (r: Option<&V>)
        requires
            self.wf(),
        ensures
            r is Some == self.map().contains_key(*k),
            r matches Some(v) ==> v@ == self.map()[*k],
    {
        match self.find(k) {
            Some(i) => {
                proof {
                    self.lemma_index(i as int);
                }
                Some(&self.entries[i].1)
            },
            None => None,
        }
    }

    /// Stores `v` under `k`, replacing any earlier value.
    pub fn insert(&mut self, k: K, v: V)
        requires
            old(self).wf(),
        ensures
            final(self).wf(),
            final(self).map() == old(self).map().insert(k, v@),
    {
        let ghost old_t = *old(self);
        let ghost vv = v@;
        match self.find(&k) {
            Some(i) => {
                proof {
                    old_t.lemma_index(i as int);
                }
                self.entries.set(i, (k, v));
                proof {
                    assert forall|a: int, b: int|
                        0 <= a < self.entries@.len() && 0 <= b < self.entries@.len() && a != b
                            implies #[trigger] self.entries@[a].0 != #[trigger] self.entries@[b].0 by {
                        assert(old_t.entries@[a].0 != old_t.entries@[b].0);
                    }
                    self.lemma_index(i as int);
                    assert forall|key: K| #[trigger] self.map().contains_key(key)
                        == old_t.map().insert(k, vv).contains_key(key) by {
                        if self.has(key) {
                            let j = self.index_of(key);
                            if j != i as int {
                                assert(old_t.entries@[j].0 == key);
                            }
                        }
                        if old_t.has(key) {
                            let j = old_t.index_of(key);
                            assert(self.entries@[j].0 == key || j == i as int);
                        }
                    }
                    assert forall|key: K| #[trigger] self.map().contains_key(key)
                        implies self.map()[key] == old_t.map().insert(k, vv)[key] by {
                        if key != k {
                            let j = self.index_of(key);
                            self.lemma_index(j);
                            old_t.lemma_index(j);
                        }
                    }
                    assert(self.map() =~= old_t.map().insert(k, vv));
                }
            },
            None => {
                self.entries.push((k, v));
                proof {
                    let n = old_t.entries@.len() as int;
                    assert forall|a: int, b: int|
                        0 <= a < self.entries@.len() && 0 <= b < self.entries@.len() && a != b
                            implies #[trigger] self.entries@[a].0 != #[trigger] self.entries@[b].0 by {
                        if a < n && b < n {
                            assert(old_t.entries@[a].0 != old_t.entries@[b].0);
                        } else if a < n {
                            assert(old_t.entries@[a].0 == self.entries@[a].0);
                            assert(!old_t.has(k));
                        } else if b < n {
                            assert(old_t.entries@[b].0 == self.entries@[b].0);
                            assert(!old_t.has(k));
                        }
                    }
                    self.lemma_index(n);
                    assert forall|key: K| #[trigger] self.map().contains_key(key)
                        == old_t.map().insert(k, vv).contains_key(key) by {
                        if self.has(key) {
                            let j = self.index_of(key);
                            if j < n {
                                assert(old_t.entries@[j].0 == key);
                            }
                        }
                        if old_t.has(key) {
                            let j = old_t.index_of(key);
                            assert(self.entries@[j].0 == key);
                        }
                    }
                    assert forall|key: K| #[trigger] self.map().contains_key(key)
                        implies self.map()[key] == old_t.map().insert(k, vv)[key] by {
                        if key != k {
                            let j = self.index_of(key);
                            self.lemma_index(j);
                            if j < n {
                                old_t.lemma_index(j);
                            }
                        }
                    }
                    assert(self.map() =~= old_t.map().insert(k, vv));
                }
            },
        }
    }

    fn remove_at(&mut self, i: usize) -> (r: V)
        requires
            old(self).wf(),
            i < old(self).entries@.len(),
        ensures
            final(self).wf(),
            final(self).entries@ == old(self).entries@.update(i as int, old(self).entries@.last()).drop_last(),
            final(self).map() == old(self).map().remove(old(self).entries@[i as int].0),
            r@ == old(self).map()[old(self).entries@[i as int].0],
    {
        let ghost old_t = *old(self);
        proof {
            old_t.lemma_index(i as int);
        }
        let (_, v) = self.entries.swap_remove(i);
        proof {
            let n = old_t.entries@.len() as int;
            let kk = old_t.entries@[i as int].0;
            assert forall|a: int| 0 <= a < self.entries@.len() implies
                #[trigger] self.entries@[a] == old_t.entries@[if a == i as int { n - 1 } else { a }] by {
            }
            assert forall|a: int, b: int|
                0 <= a < self.entries@.len() && 0 <= b < self.entries@.len() && a != b
                    implies #[trigger] self.entries@[a].0 != #[trigger] self.entries@[b].0 by {
                let sa = if a == i as int { n - 1 } else { a };
                let sb = if b == i as int { n - 1 } else { b };
                assert(self.entries@[a] == old_t.entries@[sa]);
                assert(self.entries@[b] == old_t.entries@[sb]);
                assert(old_t.entries@[sa].0 != old_t.entries@[sb].0);
            }
            assert forall|key: K| #[trigger] self.map().contains_key(key)
                == old_t.map().remove(kk).contains_key(key) by {
                if self.has(key) {
                    let j = self.index_of(key);
                    let sj = if j == i as int { n - 1 } else { j };
                    assert(self.entries@[j] == old_t.entries@[sj]);
                    assert(old_t.entries@[sj].0 == key);
                    assert(sj != i as int);
                }
                if old_t.has(key) && key != kk {
                    let j = old_t.index_of(key);
                    assert(j != i as int);
                    if j == n - 1 {
                        assert(self.entries@[i as int] == old_t.entries@[n - 1]);
                        assert(self.entries@[i as int].0 == key);
                    } else {
                        assert(self.entries@[j] == old_t.entries@[j]);
                        assert(self.entries@[j].0 == key);
                    }
                }
            }
            assert forall|key: K| #[trigger] self.map().contains_key(key)
                implies self.map()[key] == old_t.map().remove(kk)[key] by {
                let j = self.index_of(key);
                self.lemma_index(j);
                let sj = if j == i as int { n - 1 } else { j };
                assert(self.entries@[j] == old_t.entries@[sj]);
                old_t.lemma_index(sj);
            }
            assert(self.map() =~= old_t.map().remove(kk));
        }
        v
    }

    /// Removes the entry for `k`, handing back its value.
    pub fn remove(&mut self, k: &K) -> (r: Option<V>)
        requires
            old(self).wf(),
        ensures
            final(self).wf(),
            final(self).map() == old(self).map().remove(*k),
            r is Some == old(self).map().contains_key(*k),
            r matches Some(v) ==> v@ == old(self).map()[*k],
    {
        let ghost old_t = *old(self);
        match self.find(k) {
            Some(i) => {
                proof {
                    old_t.lemma_index(i as int);
                }
                Some(self.remove_at(i))
            },
            None => {
                proof {
                    assert(old_t.map().remove(*k) =~= old_t.map());
                }
                None
            },
        }
    }
}

/// The approval keys that belong to the proposal `(hash, origin_id)`.
pub open spec fn approval_prefix(hash: [u8; 32], origin_id: u64) -> Set<ApprovalKey> {
    Set::new(|k: ApprovalKey| k.hash == hash && k.origin_id == origin_id)
}

impl<V: View> Table<ApprovalKey, V> {
    /// Removes every approval recorded for the proposal `(hash, origin_id)`.
    pub fn remove_prefix(&mut self, hash: &[u8; 32], origin_id: u64)
        requires
            old(self).wf(),
        ensures
            final(self).wf(),
            final(self).map() == old(self).map().remove_keys(approval_prefix(*hash, origin_id)),
    {
        let ghost old_map = old(self).map();
        let ghost pre = approval_prefix(*hash, origin_id);
        let mut i: usize = 0;
        while i < self.entries.len()
            invariant
                self.wf(),
                0 <= i <= self.entries@.len(),
                forall|j: int| 0 <= j < i ==> !pre.contains(#[trigger] self.entries@[j].0),
                forall|k: ApprovalKey| #[trigger] self.map().contains_key(k) ==>
                    old_map.contains_key(k) && self.map()[k] == old_map[k],
                forall|k: ApprovalKey| old_map.contains_key(k) && !pre.contains(k)
                    ==> #[trigger] self.map().contains_key(k),
                pre == approval_prefix(*hash, origin_id),
            decreases self.entries@.len() - i,
        {
            let matches = self.entries[i].0.origin_id == origin_id && hash_eq(&self.entries[i].0.hash, hash);
            if matches {
                let ghost before = *self;
                self.remove_at(i);
                proof {
                    assert forall|j: int| 0 <= j < i implies !pre.contains(#[trigger] self.entries@[j].0) by {
                        assert(self.entries@[j] == before.entries@[j]);
                    }
                }
            } else {
                i = i + 1;
            }
        }
        proof {
            assert forall|k: ApprovalKey| #[trigger] self.map().contains_key(k) implies !pre.contains(k) by {
                let j = self.index_of(k);
                assert(self.has(k));
                assert(self.entries@[j].0 == k);
            }
            assert(self.map() =~= old_map.remove_keys(pre));
        }
    }
}

} // verus!
