use turbo_tasks_backend::data::{
    AggregationNumber, CachedDataUpdate, CachedDataItem, CachedDataItemIndex, CachedDataItemKey, CachedDataItemValue, CellRef,
    CollectiblesRef, OutputValue,
};
use turbo_tasks_backend::ids::{CellId, SharedError, TaskId, ValueTypeId};
use turbo_tasks_backend::indicies;

fn persistent_task(id: u32) -> TaskId {
    TaskId::new(id, false)
}

fn transient_task(id: u32) -> TaskId {
    TaskId::new(id, true)
}

fn cell(task: TaskId) -> CellRef {
    CellRef { task, cell: CellId { type_id: ValueTypeId { id: 3 }, index: 0 } }
}

#[test]
fn output_pointing_at_transient_task_is_not_persistent() {
    let item = CachedDataItem::Output { value: OutputValue::Output(transient_task(2)) };
    assert!(!item.is_persistent());
    assert!(item.key().is_persistent());
    let (key, value) = item.into_key_and_value();
    assert!(key.is_persistent());
    assert!(!value.is_persistent());
}

#[test]
fn output_pointing_at_persistent_cell_is_persistent() {
    let item = CachedDataItem::Output { value: OutputValue::Cell(cell(persistent_task(2))) };
    assert!(item.is_persistent());
    let failed = CachedDataItem::Output { value: OutputValue::Panic };
    assert!(failed.is_persistent());
}

#[test]
fn child_follows_task_transience() {
    let child = CachedDataItem::Child { task: transient_task(5), value: () };
    assert!(!child.is_persistent());
    assert!(!child.key().is_persistent());
    let child = CachedDataItem::Child { task: persistent_task(5), value: () };
    assert!(child.is_persistent());
    let (key, value) = child.into_key_and_value();
    assert!(key.is_persistent());
    assert!(value.is_persistent());
}

#[test]
fn transient_only_kinds_are_never_persistent() {
    let outdated = CachedDataItem::OutdatedChild { task: persistent_task(5), value: () };
    assert!(!outdated.is_persistent());
    let error = CachedDataItem::Error { value: SharedError { message: "boom".to_string() } };
    assert!(!error.is_persistent());
    assert!(!CachedDataItemKey::InProgress.is_persistent());
    assert!(!CachedDataItemKey::AggregateRoot.is_persistent());
    assert!(CachedDataItemKey::Dirty.is_persistent());
}

#[test]
fn collectibles_dependency_follows_target_task() {
    let target = CollectiblesRef { task: transient_task(9), collectible_type: ValueTypeId { id: 1 } };
    let key = CachedDataItemKey::CollectiblesDependency { target };
    assert!(!key.is_persistent());
    assert_eq!(key.index(), None);
}

#[test]
fn index_buckets() {
    let t = persistent_task(1);
    assert_eq!(CachedDataItemKey::Child { task: t }.index(), Some(CachedDataItemIndex::Children));
    assert_eq!(
        CachedDataItemKey::OutdatedChild { task: t }.index(),
        Some(CachedDataItemIndex::Children)
    );
    assert_eq!(
        CachedDataItemKey::OutdatedCellDependency { target: cell(t) }.index(),
        Some(CachedDataItemIndex::Dependencies)
    );
    assert_eq!(
        CachedDataItemKey::OutputDependency { target: t }.index(),
        Some(CachedDataItemIndex::Dependencies)
    );
    assert_eq!(CachedDataItemKey::Follower { task: t }.index(), Some(CachedDataItemIndex::Follower));
    assert_eq!(CachedDataItemKey::Upper { task: t }.index(), Some(CachedDataItemIndex::Upper));
    assert_eq!(CachedDataItemKey::Dirty.index(), None);
    assert_eq!(CachedDataItemKey::AggregatedCollectible { collectible: cell(t) }.index(), None);
}

#[test]
fn key_and_value_join_back() {
    let t = persistent_task(4);
    let item = CachedDataItem::Follower { task: t, value: 3 };
    let (key, value) = item.into_key_and_value();
    assert_eq!(key, CachedDataItemKey::Follower { task: t });
    match CachedDataItem::from_key_and_value(key, value) {
        Some(CachedDataItem::Follower { task, value }) => {
            assert_eq!(task, t);
            assert_eq!(value, 3);
        }
        _ => panic!("expected a follower record"),
    }
    let mismatched = CachedDataItem::from_key_and_value(
        CachedDataItemKey::Upper { task: t },
        CachedDataItemValue::Follower { value: 1 },
    );
    assert!(mismatched.is_none());
}

#[test]
fn new_scheduled_with_listener_registers_one_waiter() {
    let (item, listener) = CachedDataItem::new_scheduled_with_listener("task".to_string());
    assert!(!listener.ready);
    match item {
        CachedDataItem::InProgress {
            value: turbo_tasks_backend::data::InProgressState::Scheduled { done_event },
        } => {
            assert!(!done_event.fired);
            assert_eq!(done_event.waiting, 1);
        }
        _ => panic!("expected a scheduled state"),
    }
}

#[test]
fn updates_reach_storage_only_when_persistent() {
    let t = persistent_task(1);
    let keep = CachedDataUpdate {
        task: t,
        key: CachedDataItemKey::Output,
        value: Some(CachedDataItemValue::Output { value: OutputValue::Output(persistent_task(2)) }),
    };
    assert!(keep.is_persistent());
    let transient_output = CachedDataUpdate {
        task: t,
        key: CachedDataItemKey::Output,
        value: Some(CachedDataItemValue::Output { value: OutputValue::Output(transient_task(2)) }),
    };
    assert!(!transient_output.is_persistent());
    let deletion = CachedDataUpdate { task: t, key: CachedDataItemKey::Child { task: persistent_task(3) }, value: None };
    assert!(deletion.is_persistent());
    let transient_key = CachedDataUpdate { task: t, key: CachedDataItemKey::InProgress, value: None };
    assert!(!transient_key.is_persistent());
}

#[test]
fn index_constants_name_their_buckets() {
    assert_eq!(indicies::OutdatedChild, CachedDataItemIndex::Children);
    assert_eq!(indicies::OutdatedCellDependency, CachedDataItemIndex::Dependencies);
    assert_eq!(indicies::CellDependent, CachedDataItemIndex::CellDependent);
}

#[test]
fn aggregation_number_defaults_to_zero() {
    let n = AggregationNumber::default();
    assert_eq!(n, AggregationNumber { base: 0, distance: 0, effective: 0 });
}
