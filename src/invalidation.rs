use crate::data::{CachedDataItem, CachedDataItemIndex, CachedDataItemKey};
use crate::ids::{CellId, TaskId};
use crate::store::TaskStorage;
use vstd::prelude::*;

verus! {

/// Marks the task dirty. Returns whether it was clean before.
pub fn mark_dirty(storage: &mut TaskStorage) -> (r: bool)
    requires
        old(storage).wf(),
    ensures
        final(storage).wf(),
        r == !old(storage)@.contains_key(CachedDataItemKey::Dirty),
        final(storage)@ == old(storage)@.insert(CachedDataItemKey::Dirty, CachedDataItem::Dirty { value: () }),
{
    let prev = storage.insert(CachedDataItem::Dirty { value: () });
    prev.is_none()
}

/// Clears the task's dirty flag. Returns whether it was dirty.
pub fn clear_dirty(storage: &mut TaskStorage) -> (r: bool)
    requires
        old(storage).wf(),
    ensures
        final(storage).wf(),
        r == old(storage)@.contains_key(CachedDataItemKey::Dirty),
        final(storage)@ == old(storage)@.remove(CachedDataItemKey::Dirty),
{
    storage.remove(&CachedDataItemKey::Dirty).is_some()
}

/// The tasks that depend on `cell`, as the owner's `CellDependent` records list them.
pub fn cell_dependents(storage: &TaskStorage, cell: CellId) -> (r: Vec<TaskId>)
    requires
        storage.wf(),
    ensures
        forall|t: TaskId| r@.contains(t) <==>
            storage@.contains_key(CachedDataItemKey::CellDependent { cell, task: t }),
{
    let keys = storage.keys_in_index(CachedDataItemIndex::CellDependent);
    let mut r: Vec<TaskId> = Vec::new();
    let mut i: usize = 0;
    while i < keys.len()
        invariant
            i <= keys@.len(),
            forall|t: TaskId| #[trigger] r@.contains(t) <==>
                keys@.take(i as int).contains(CachedDataItemKey::CellDependent { cell, task: t }),
        decreases keys@.len() - i,
    {
        let key = keys[i];
        let ghost prefix = keys@.take(i as int);
        let ghost next = keys@.take(i + 1);
        let ghost prev = r@;
        proof {
            assert(next =~= prefix.push(key));
        }
        match key {
            CachedDataItemKey::CellDependent { cell: c, task } => {
                if c == cell {
                    r.push(task);
                }
            },
            _ => {},
        }
        proof {
            assert forall|t: TaskId| #[trigger] r@.contains(t) <==>
                next.contains(CachedDataItemKey::CellDependent { cell, task: t }) by {
                let k = CachedDataItemKey::CellDependent { cell, task: t };
                assert(prev.contains(t) == prefix.contains(k));
                if prefix.contains(k) {
                    let m = choose|m: int| 0 <= m < prefix.len() && prefix[m] == k;
                    assert(next[m] == k);
                }
                if next.contains(k) && k != key {
                    let m = choose|m: int| 0 <= m < next.len() && next[m] == k;
                    assert(prefix[m] == k);
                }
                if k == key {
                    assert(next[i as int] == k);
                }
                if r@.len() > prev.len() {
                    assert(r@ == prev.push(key->CellDependent_task));
                    if prev.contains(t) {
                        let m = choose|m: int| 0 <= m < prev.len() && prev[m] == t;
                        assert(r@[m] == t);
                    }
                    if r@.contains(t) && t != key->CellDependent_task {
                        let m = choose|m: int| 0 <= m < r@.len() && r@[m] == t;
                        assert(prev[m] == t);
                    }
                    if t == key->CellDependent_task {
                        assert(r@[prev.len() as int] == t);
                    }
                }
            }
        }
        i = i + 1;
    }
    proof {
        assert(keys@.take(keys@.len() as int) =~= keys@);
        assert forall|t: TaskId| r@.contains(t) <==>
            storage@.contains_key(CachedDataItemKey::CellDependent { cell, task: t }) by {
            let k = CachedDataItemKey::CellDependent { cell, task: t };
            assert(k.spec_index() == Some(CachedDataItemIndex::CellDependent));
            assert(keys@.contains(k) == storage@.contains_key(k));
        }
    }
    r
}

} // verus!
