use turbo_tasks_backend::aggregation::{
    apply_follower_delta, get_count, propagate_dirty_container, update_count, AggregationError,
};
use turbo_tasks_backend::data::{ActiveType, RootState, CachedDataItem, CachedDataItemIndex, CachedDataItemKey, CellRef};
use turbo_tasks_backend::execution::{begin_execution, confirm_edge, remaining_outdated, stage_outdated};
use turbo_tasks_backend::ids::{CellId, TaskId, ValueTypeId};
use turbo_tasks_backend::invalidation::{cell_dependents, clear_dirty, mark_dirty};
use turbo_tasks_backend::lifecycle::on_dirty_count;
use turbo_tasks_backend::store::TaskStorage;

fn task(id: u32) -> TaskId {
    TaskId::new(id, false)
}

fn cell0() -> CellId {
    CellId { type_id: ValueTypeId { id: 7 }, index: 0 }
}

#[test]
fn insert_overwrites_and_remove_deletes() {
    let mut s = TaskStorage::new();
    assert_eq!(s.len(), 0);
    assert!(s.insert(CachedDataItem::CellTypeMaxIndex { cell_type: ValueTypeId { id: 1 }, value: 3 }).is_none());
    let prev = s.insert(CachedDataItem::CellTypeMaxIndex { cell_type: ValueTypeId { id: 1 }, value: 5 });
    assert!(matches!(prev, Some(CachedDataItem::CellTypeMaxIndex { value: 3, .. })));
    assert_eq!(s.len(), 1);
    let key = CachedDataItemKey::CellTypeMaxIndex { cell_type: ValueTypeId { id: 1 } };
    assert!(matches!(s.get(&key), Some(CachedDataItem::CellTypeMaxIndex { value: 5, .. })));
    assert!(s.remove(&key).is_some());
    assert!(!s.contains_key(&key));
    assert!(s.remove(&key).is_none());
    assert_eq!(s.len(), 0);
}

#[test]
fn index_lists_only_its_bucket() {
    let mut s = TaskStorage::new();
    s.insert(CachedDataItem::Child { task: task(1), value: () });
    s.insert(CachedDataItem::OutdatedChild { task: task(2), value: () });
    s.insert(CachedDataItem::Follower { task: task(3), value: 1 });
    s.insert(CachedDataItem::Dirty { value: () });
    let children = s.keys_in_index(CachedDataItemIndex::Children);
    assert_eq!(children.len(), 2);
    assert!(children.contains(&CachedDataItemKey::Child { task: task(1) }));
    assert!(children.contains(&CachedDataItemKey::OutdatedChild { task: task(2) }));
    assert_eq!(s.keys_in_index(CachedDataItemIndex::Follower), vec![CachedDataItemKey::Follower { task: task(3) }]);
    assert!(s.keys_in_index(CachedDataItemIndex::Upper).is_empty());
}

#[test]
fn counts_reaching_zero_leave_no_record() {
    let mut s = TaskStorage::new();
    let key = CachedDataItemKey::Upper { task: task(9) };
    assert_eq!(update_count(&mut s, key, 2), Ok(2));
    assert_eq!(update_count(&mut s, key, -2), Ok(0));
    assert!(!s.contains_key(&key));
    assert_eq!(update_count(&mut s, key, -1), Ok(-1));
    assert_eq!(get_count(&s, &key), -1);
}

#[test]
fn count_overflow_changes_nothing() {
    let mut s = TaskStorage::new();
    let key = CachedDataItemKey::AggregatedDirtyContainerCount;
    assert_eq!(update_count(&mut s, key, i32::MAX), Ok(i32::MAX));
    assert_eq!(update_count(&mut s, key, 1), Err(AggregationError::Overflow));
    assert_eq!(get_count(&s, &key), i32::MAX);
}

#[test]
fn follower_and_upper_counts_stay_equal() {
    let (a, f) = (task(1), task(2));
    let mut agg = TaskStorage::new();
    let mut fol = TaskStorage::new();
    let fk = CachedDataItemKey::Follower { task: f };
    let uk = CachedDataItemKey::Upper { task: a };
    apply_follower_delta(&mut agg, a, &mut fol, f, 1).unwrap();
    apply_follower_delta(&mut agg, a, &mut fol, f, 1).unwrap();
    assert_eq!(get_count(&agg, &fk), 2);
    assert_eq!(get_count(&fol, &uk), 2);
    apply_follower_delta(&mut agg, a, &mut fol, f, -2).unwrap();
    assert!(!agg.contains_key(&fk));
    assert!(!fol.contains_key(&uk));
    update_count(&mut fol, uk, i32::MIN).unwrap();
    assert_eq!(apply_follower_delta(&mut agg, a, &mut fol, f, -1), Err(AggregationError::Overflow));
    assert!(!agg.contains_key(&fk));
}

#[test]
fn dirty_container_count_moves_on_sign_changes() {
    let mut agg = TaskStorage::new();
    let count = CachedDataItemKey::AggregatedDirtyContainerCount;
    propagate_dirty_container(&mut agg, task(4), 1).unwrap();
    assert_eq!(get_count(&agg, &count), 1);
    propagate_dirty_container(&mut agg, task(4), 1).unwrap();
    assert_eq!(get_count(&agg, &count), 1);
    propagate_dirty_container(&mut agg, task(5), 1).unwrap();
    assert_eq!(get_count(&agg, &count), 2);
    propagate_dirty_container(&mut agg, task(4), -2).unwrap();
    assert_eq!(get_count(&agg, &count), 1);
    assert!(!agg.contains_key(&CachedDataItemKey::AggregatedDirtyContainer { task: task(4) }));
}

#[test]
fn reexecution_leaves_unconfirmed_edges_outdated() {
    let mut s = TaskStorage::new();
    let c = CellRef { task: task(8), cell: cell0() };
    s.insert(CachedDataItem::OutputDependency { target: task(5), value: () });
    s.insert(CachedDataItem::CellDependency { target: c, value: () });
    s.insert(CachedDataItem::Child { task: task(6), value: () });
    s.insert(CachedDataItem::Dirty { value: () });
    begin_execution(&mut s);
    assert!(!s.contains_key(&CachedDataItemKey::OutputDependency { target: task(5) }));
    assert!(s.contains_key(&CachedDataItemKey::OutdatedChild { task: task(6) }));
    assert!(s.contains_key(&CachedDataItemKey::Dirty));
    assert!(confirm_edge(&mut s, CachedDataItemKey::OutputDependency { target: task(5) }));
    assert!(!confirm_edge(&mut s, CachedDataItemKey::Child { task: task(7) }));
    let remaining = remaining_outdated(&s);
    assert_eq!(remaining.len(), 2);
    assert!(remaining.contains(&CachedDataItemKey::OutdatedCellDependency { target: c }));
    assert!(remaining.contains(&CachedDataItemKey::OutdatedChild { task: task(6) }));
    assert!(s.contains_key(&CachedDataItemKey::OutputDependency { target: task(5) }));
    assert!(s.contains_key(&CachedDataItemKey::Child { task: task(7) }));
}

#[test]
fn staging_a_missing_edge_changes_nothing() {
    let mut s = TaskStorage::new();
    assert!(!stage_outdated(&mut s, CachedDataItemKey::Child { task: task(1) }));
    assert_eq!(s.len(), 0);
}

#[test]
fn changed_cell_dirties_its_reader_and_its_aggregator() {
    let (a, b) = (task(1), task(2));
    let mut a_records = TaskStorage::new();
    let mut b_records = TaskStorage::new();
    let mut aggregator = TaskStorage::new();
    a_records.insert(CachedDataItem::CellDependent { cell: cell0(), task: b, value: () });
    b_records.insert(CachedDataItem::CellDependency { target: CellRef { task: a, cell: cell0() }, value: () });
    let readers = cell_dependents(&a_records, cell0());
    assert_eq!(readers, vec![b]);
    let other_cell = CellId { type_id: ValueTypeId { id: 7 }, index: 1 };
    assert!(cell_dependents(&a_records, other_cell).is_empty());
    let count = CachedDataItemKey::AggregatedDirtyContainerCount;
    let before = get_count(&aggregator, &count);
    assert!(mark_dirty(&mut b_records));
    propagate_dirty_container(&mut aggregator, b, 1).unwrap();
    assert!(b_records.contains_key(&CachedDataItemKey::Dirty));
    assert_eq!(get_count(&aggregator, &count), before + 1);
    assert!(!mark_dirty(&mut b_records));
    assert!(clear_dirty(&mut b_records));
    assert!(!clear_dirty(&mut b_records));
}

#[test]
fn cleaning_the_last_dirty_descendant_resets_the_root() {
    let descendant = task(3);
    let mut root_records = TaskStorage::new();
    let mut descendant_records = TaskStorage::new();
    let mut root = Some(RootState::new(ActiveType::CachedActiveUntilClean));
    let waiter = root.as_mut().unwrap().all_clean_event.listen();
    assert!(!waiter.ready);
    let count = CachedDataItemKey::AggregatedDirtyContainerCount;

    assert!(mark_dirty(&mut descendant_records));
    propagate_dirty_container(&mut root_records, descendant, 1).unwrap();
    assert_eq!(on_dirty_count(&mut root, get_count(&root_records, &count)), None);
    assert!(root.is_some());

    assert!(clear_dirty(&mut descendant_records));
    propagate_dirty_container(&mut root_records, descendant, -1).unwrap();
    assert_eq!(get_count(&root_records, &count), 0);
    assert_eq!(on_dirty_count(&mut root, get_count(&root_records, &count)), Some(1));
    assert!(root.is_none());
    assert_eq!(on_dirty_count(&mut root, get_count(&root_records, &count)), None);
}
