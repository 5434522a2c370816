use crate::data::{CachedDataItem, CachedDataItemIndex, CachedDataItemKey};
use vstd::prelude::*;

verus! {

/// The records of one task, at most one per key.
pub struct TaskStorage {
    items: Vec<CachedDataItem>,
    model: Ghost<Map<CachedDataItemKey, CachedDataItem>>,
}

impl View for TaskStorage {
    type V = Map<CachedDataItemKey, CachedDataItem>;

    closed spec fn view(&self) -> Map<CachedDataItemKey, CachedDataItem> {
        self.model@
    }
}

impl TaskStorage {
    /// Every stored record sits under its own key, and every key of the map has its record.
    pub closed spec fn wf(&self) -> bool {
        &&& forall|i: int| 0 <= i < self.items@.len() ==>
            #[trigger] self.model@.contains_key(self.items@[i].spec_key())
                && self.model@[self.items@[i].spec_key()] == self.items@[i]
        &&& forall|k: CachedDataItemKey| #[trigger] self.model@.contains_key(k) ==>
            exists|i: int| 0 <= i < self.items@.len() && #[trigger] self.items@[i].spec_key() == k
        &&& forall|i: int, j: int| 0 <= i < j < self.items@.len() ==>
            #[trigger] self.items@[i].spec_key() != #[trigger] self.items@[j].spec_key()
    }

    /// A stored record sits under its own key.
    pub proof fn lemma_record_key(&self, key: CachedDataItemKey)
        requires
            self.wf(),
            self@.contains_key(key),
        ensures
            self@[key].spec_key() == key,
    {
        let i = choose|i: int| 0 <= i < self.items@.len() && #[trigger] self.items@[i].spec_key() == key;
        assert(self.model@.contains_key(self.items@[i].spec_key()));
    }

    pub fn new() -> (r: TaskStorage)
        ensures
            r.wf(),
            r@ == Map::<CachedDataItemKey, CachedDataItem>::empty(),
    {
        TaskStorage { items: Vec::new(), model: Ghost(Map::empty()) }
    }

    pub fn len(&self) -> (r: usize)
        requires
            self.wf(),
        ensures
            r == self@.len(),
    {
        proof { self.lemma_len(); }
        self.items.len()
    }

    proof fn lemma_len(&self)
        requires
            self.wf(),
        ensures
            self.items@.len() == self@.len(),
            self@.dom().finite(),
    {
        let keys = self.items@.map_values(|it: CachedDataItem| it.spec_key());
        assert forall|i: int, j: int| 0 <= i < keys.len() && 0 <= j < keys.len() && i != j
            implies keys[i] != keys[j] by {
            if i < j {
                assert(self.items@[i].spec_key() != self.items@[j].spec_key());
            } else {
                assert(self.items@[j].spec_key() != self.items@[i].spec_key());
            }
        }
        keys.unique_seq_to_set();
        assert(self@.dom() =~= keys.to_set()) by {
            assert forall|k: CachedDataItemKey| self@.dom().contains(k) implies keys.to_set().contains(k) by {
                let i = choose|i: int| 0 <= i < self.items@.len() && #[trigger] self.items@[i].spec_key() == k;
                assert(keys[i] == k);
            }
            assert forall|k: CachedDataItemKey| keys.to_set().contains(k) implies self@.dom().contains(k) by {
                let i = choose|i: int| 0 <= i < keys.len() && keys[i] == k;
                assert(self.model@.contains_key(self.items@[i].spec_key()));
            }
        }
    }

    /// The position of the record with this key, if there is one.
    fn find(&self, key: &CachedDataItemKey) -> (r: Option<usize>)
        requires
            self.wf(),
        ensures
            r matches Some(i) ==> i < self.items@.len() && self.items@[i as int].spec_key() == *key,
            r is None ==> !self@.contains_key(*key),
    {
        let mut i: usize = 0;
        while i < self.items.len()
            invariant
                self.wf(),
                i <= self.items@.len(),
                forall|j: int| 0 <= j < i ==> self.items@[j].spec_key() != *key,
            decreases self.items@.len() - i,
        {
            if self.items[i].key() == *key {
                return Some(i);
            }
            i = i + 1;
        }
        None
    }

    pub fn contains_key(&self, key: &CachedDataItemKey) -> (r: bool)
        requires
            self.wf(),
        ensures
            r == self@.contains_key(*key),
    {
        match self.find(key) {
            Some(i) => {
                assert(self.model@.contains_key(self.items@[i as int].spec_key()));
                true
            },
            None => false,
        }
    }

    /// The record stored under `key`.
    pub fn get(&self, key: &CachedDataItemKey) -> (r: Option<&CachedDataItem>)
        requires
            self.wf(),
        ensures
            r is Some == self@.contains_key(*key),
            r matches Some(item) ==> *item == self@[*key],
    {
        match self.find(key) {
            Some(i) => {
                assert(self.model@.contains_key(self.items@[i as int].spec_key()));
                Some(&self.items[i])
            },
            None => None,
        }
    }

    /// Stores a record under its key, replacing and returning the record that was there.
    pub fn insert(&mut self, item: CachedDataItem) -> (r: Option<CachedDataItem>)
        requires
            old(self).wf(),
        ensures
            final(self).wf(),
            final(self)@ == old(self)@.insert(item.spec_key(), item),
            r is Some == old(self)@.contains_key(item.spec_key()),
            r matches Some(prev) ==> prev == old(self)@[item.spec_key()],
    {
        let key = item.key();
        let ghost k = item.spec_key();
        let ghost old_items = self.items@;
        match self.find(&key) {
            Some(i) => {
                assert(self.model@.contains_key(self.items@[i as int].spec_key()));
                self.items.push(item);
                let prev = self.items.swap_remove(i);
                self.model = Ghost(self.model@.insert(k, item));
                proof {
                    assert(self.items@ =~= old_items.update(i as int, item));
                    assert forall|kk: CachedDataItemKey| #[trigger] self.model@.contains_key(kk) implies
                        exists|j: int| 0 <= j < self.items@.len() && #[trigger] self.items@[j].spec_key() == kk by {
                        if kk == k {
                            assert(self.items@[i as int].spec_key() == kk);
                        } else {
                            let j = choose|j: int| 0 <= j < old_items.len() && #[trigger] old_items[j].spec_key() == kk;
                            assert(self.items@[j].spec_key() == kk);
                        }
                    }
                }
                Some(prev)
            },
            None => {
                self.items.push(item);
                self.model = Ghost(self.model@.insert(k, item));
                proof {
                    assert(self.items@ =~= old_items.push(item));
                    assert forall|kk: CachedDataItemKey| #[trigger] self.model@.contains_key(kk) implies
                        exists|j: int| 0 <= j < self.items@.len() && #[trigger] self.items@[j].spec_key() == kk by {
                        if kk == k {
                            assert(self.items@[old_items.len() as int].spec_key() == kk);
                        } else {
                            let j = choose|j: int| 0 <= j < old_items.len() && #[trigger] old_items[j].spec_key() == kk;
                            assert(self.items@[j].spec_key() == kk);
                        }
                    }
                }
                None
            },
        }
    }

    /// Removes and returns the record stored under `key`.
    pub fn remove(&mut self, key: &CachedDataItemKey) -> (r: Option<CachedDataItem>)
        requires
            old(self).wf(),
        ensures
            final(self).wf(),
            final(self)@ == old(self)@.remove(*key),
            r is Some == old(self)@.contains_key(*key),
            r matches Some(prev) ==> prev == old(self)@[*key],
    {
        let ghost old_items = self.items@;
        match self.find(key) {
            Some(i) => {
                assert(self.model@.contains_key(self.items@[i as int].spec_key()));
                let prev = self.items.swap_remove(i);
                self.model = Ghost(self.model@.remove(*key));
                proof {
                    let last = old_items.len() - 1;
                    assert forall|kk: CachedDataItemKey| #[trigger] self.model@.contains_key(kk) implies
                        exists|j: int| 0 <= j < self.items@.len() && #[trigger] self.items@[j].spec_key() == kk by {
                        let j = choose|j: int| 0 <= j < old_items.len() && #[trigger] old_items[j].spec_key() == kk;
                        if j == last {
                            assert(self.items@[i as int].spec_key() == kk);
                        } else {
                            assert(self.items@[j].spec_key() == kk);
                        }
                    }
                    assert forall|a: int, b: int| 0 <= a < b < self.items@.len() implies
                        #[trigger] self.items@[a].spec_key() != #[trigger] self.items@[b].spec_key() by {
                        let oa = if a == i { last } else { a };
                        let ob = if b == i { last } else { b };
                        assert(old_items[oa].spec_key() != old_items[ob].spec_key() || oa == ob);
                    }
                }
                Some(prev)
            },
            None => {
                assert(self.model@.remove(*key) =~= self.model@);
                None
            },
        }
    }

    /// The keys of all records of one secondary index.
    pub fn keys_in_index(&self, index: CachedDataItemIndex) -> (r: Vec<CachedDataItemKey>)
        requires
            self.wf(),
        ensures
            forall|k: CachedDataItemKey| r@.contains(k) <==>
                (self@.contains_key(k) && k.spec_index() == Some(index)),
            r@.no_duplicates(),
    {
        let mut r: Vec<CachedDataItemKey> = Vec::new();
        let mut i: usize = 0;
        while i < self.items.len()
            invariant
                self.wf(),
                i <= self.items@.len(),
                r@.no_duplicates(),
                forall|m: int| 0 <= m < r@.len() ==> (#[trigger] r@[m]).spec_index() == Some(index)
                    && exists|j: int| 0 <= j < i && #[trigger] self.items@[j].spec_key() == r@[m],
                forall|j: int| 0 <= j < i && (#[trigger] self.items@[j].spec_key()).spec_index() == Some(index)
                    ==> r@.contains(self.items@[j].spec_key()),
            decreases self.items@.len() - i,
        {
            let key = self.items[i].key();
            if key.index() == Some(index) {
                let ghost old_r = r@;
                proof {
                    assert(!old_r.contains(key)) by {
                        if old_r.contains(key) {
                            let m = choose|m: int| 0 <= m < old_r.len() && old_r[m] == key;
                            let j = choose|j: int| 0 <= j < i && #[trigger] self.items@[j].spec_key() == old_r[m];
                            assert(self.items@[j].spec_key() != self.items@[i as int].spec_key());
                        }
                    }
                }
                r.push(key);
                proof {
                    assert(r@ == old_r.push(key));
                    assert forall|m: int| 0 <= m < r@.len() implies (#[trigger] r@[m]).spec_index() == Some(index)
                        && exists|j: int| 0 <= j < i + 1 && #[trigger] self.items@[j].spec_key() == r@[m] by {
                        if m < old_r.len() {
                            assert(r@[m] == old_r[m]);
                            let j = choose|j: int| 0 <= j < i && #[trigger] self.items@[j].spec_key() == old_r[m];
                            assert(self.items@[j].spec_key() == r@[m]);
                        } else {
                            assert(self.items@[i as int].spec_key() == r@[m]);
                        }
                    }
                    assert forall|j: int| 0 <= j < i + 1 && (#[trigger] self.items@[j].spec_key()).spec_index() == Some(index)
                        implies r@.contains(self.items@[j].spec_key()) by {
                        if j < i {
                            let m = choose|m: int| 0 <= m < old_r.len() && old_r[m] == self.items@[j].spec_key();
                            assert(r@[m] == old_r[m]);
                        } else {
                            assert(r@[old_r.len() as int] == key);
                        }
                    }
                }
            }
            i = i + 1;
        }
        proof {
            assert forall|k: CachedDataItemKey| self@.contains_key(k) && k.spec_index() == Some(index)
                implies r@.contains(k) by {
                let j = choose|j: int| 0 <= j < self.items@.len() && #[trigger] self.items@[j].spec_key() == k;
            }
            assert forall|k: CachedDataItemKey| r@.contains(k) implies
                self@.contains_key(k) && k.spec_index() == Some(index) by {
                let m = choose|m: int| 0 <= m < r@.len() && r@[m] == k;
                let j = choose|j: int| 0 <= j < self.items@.len() && #[trigger] self.items@[j].spec_key() == r@[m];
                assert(self.model@.contains_key(self.items@[j].spec_key()));
            }
        }
        r
    }
}

} // verus!
