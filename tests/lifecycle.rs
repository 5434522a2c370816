use turbo_tasks_backend::data::{ActiveType, InProgressCellState, InProgressState, RootState};
use turbo_tasks_backend::event::{Event, EventError};
use turbo_tasks_backend::data::{CachedDataItem, CachedDataItemKey};
use turbo_tasks_backend::ids::{CellId, SharedReference, TaskId, ValueTypeId};
use turbo_tasks_backend::store::TaskStorage;
use turbo_tasks_backend::lifecycle::{
    complete_cell, complete_execution, write_cell, mark_stale, on_dirty_count, request_execution,
    start_execution, Completion, LifecycleError,
};

#[test]
fn event_fires_once_and_late_listener_is_ready() {
    let mut event = Event::new("e".to_string());
    let early = event.listen();
    assert!(!early.ready);
    assert_eq!(event.notify(), Ok(1));
    assert_eq!(event.notify(), Err(EventError::AlreadyFired));
    assert!(event.fired);
    assert_eq!(event.waiting, 0);
    let late = event.listen();
    assert!(late.ready);
    assert_eq!(event.waiting, 0);
}

#[test]
fn two_callers_share_one_execution() {
    let mut state: Option<InProgressState> = None;
    let (first_schedules, first) = request_execution(&mut state, "task".to_string());
    let (second_schedules, second) = request_execution(&mut state, "task".to_string());
    assert!(first_schedules);
    assert!(!second_schedules);
    assert!(!first.ready && !second.ready);
    assert_eq!(start_execution(&mut state, false), Ok(()));
    assert_eq!(start_execution(&mut state, false), Err(LifecycleError::NotScheduled));
    assert_eq!(complete_execution(&mut state), Ok(Completion { stale: false, woken: 2 }));
    assert!(state.is_none());
    assert_eq!(complete_execution(&mut state), Err(LifecycleError::NotRunning));
}

#[test]
fn waiter_joining_a_running_task_is_woken_too() {
    let mut state: Option<InProgressState> = None;
    request_execution(&mut state, "task".to_string());
    start_execution(&mut state, true).unwrap();
    let (schedules, listener) = request_execution(&mut state, "task".to_string());
    assert!(!schedules);
    assert!(!listener.ready);
    assert_eq!(complete_execution(&mut state), Ok(Completion { stale: false, woken: 2 }));
}

#[test]
fn invalidation_while_running_marks_result_stale() {
    let mut state: Option<InProgressState> = None;
    assert!(!mark_stale(&mut state));
    request_execution(&mut state, "task".to_string());
    assert!(!mark_stale(&mut state));
    start_execution(&mut state, false).unwrap();
    assert!(mark_stale(&mut state));
    assert!(mark_stale(&mut state));
    assert_eq!(complete_execution(&mut state), Ok(Completion { stale: true, woken: 1 }));
}

#[test]
fn root_active_until_clean_resets_once() {
    let mut root = Some(RootState::new(ActiveType::CachedActiveUntilClean));
    let listener = root.as_mut().unwrap().all_clean_event.listen();
    assert!(!listener.ready);
    assert_eq!(on_dirty_count(&mut root, 1), None);
    assert!(root.is_some());
    assert_eq!(on_dirty_count(&mut root, 0), Some(1));
    assert!(root.is_none());
    assert_eq!(on_dirty_count(&mut root, 0), None);
}

#[test]
fn explicit_root_is_not_reset_by_cleanliness() {
    let mut root = Some(RootState::new(ActiveType::RootTask));
    assert_eq!(on_dirty_count(&mut root, 0), None);
    assert!(root.is_some());
    let mut once = Some(RootState::new(ActiveType::OnceTask));
    assert_eq!(on_dirty_count(&mut once, 0), None);
    assert!(once.is_some());
}

#[test]
fn cell_event_releases_its_readers() {
    let task = TaskId::new(1, false);
    let cell = CellId { type_id: ValueTypeId { id: 2 }, index: 0 };
    let mut state = InProgressCellState::new(task, cell);
    state.event.listen();
    state.event.listen();
    assert_eq!(complete_cell(state), Ok(2));
}

#[test]
fn writing_a_cell_releases_its_readers() {
    let task = TaskId::new(1, false);
    let cell = CellId { type_id: ValueTypeId { id: 2 }, index: 4 };
    let mut records = TaskStorage::new();
    let mut state = InProgressCellState::new(task, cell);
    state.event.listen();
    records.insert(CachedDataItem::InProgressCell { cell, value: state });
    let woken = write_cell(&mut records, cell, SharedReference { bytes: vec![1, 2] });
    assert_eq!(woken, Some(1));
    assert!(!records.contains_key(&CachedDataItemKey::InProgressCell { cell }));
    match records.get(&CachedDataItemKey::CellData { cell }) {
        Some(CachedDataItem::CellData { value, .. }) => assert_eq!(value.bytes, vec![1, 2]),
        _ => panic!("expected the written cell"),
    }
    assert_eq!(write_cell(&mut records, cell, SharedReference { bytes: vec![3] }), None);
}
