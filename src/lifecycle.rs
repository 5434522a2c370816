use crate::data::{ActiveType, CachedDataItem, CachedDataItemKey, InProgressCellState, InProgressState, RootState};
use crate::event::{Event, EventError, EventListener};
use crate::ids::{CellId, SharedReference};
use crate::store::TaskStorage;
use vstd::prelude::*;

verus! {

#[derive(Debug, Clone, Copy, PartialEq, Eq, Structural)]
pub enum LifecycleError {
    /// The task was not scheduled, so it cannot start.
    NotScheduled,
    /// The task was not running, so it cannot complete.
    NotRunning,
    /// The task's `done_event` had fired already.
    AlreadyFired,
}

/// How a completed execution ended.
#[derive(Debug, Clone, Copy, PartialEq, Eq, Structural)]
pub struct Completion {
    /// An invalidation arrived while the task ran: its result is dirty at once.
    pub stale: bool,
    /// The parties woken by `done_event`.
    pub woken: u64,
}

impl InProgressState {
    pub open spec fn done_event(&self) -> Event {
        match self {
            InProgressState::Scheduled { done_event } => *done_event,
            InProgressState::InProgress { done_event, .. } => *done_event,
        }
    }
}

/// Asks for a task's result. Where nothing is in flight the task is scheduled and the call
/// returns `true`: its caller enqueues the task. Otherwise the caller only waits on the
/// `done_event` of the execution in flight and `false` is returned. Either way the caller is
/// registered on that one event.
pub fn request_execution(state: &mut Option<InProgressState>, description: String) -> (r: (bool, EventListener))
    requires
        *old(state) matches Some(s) ==> s.done_event().wf() && s.done_event().waiting < u64::MAX,
    ensures
        r.0 == (*old(state)).is_none(),
        (*old(state)).is_none() ==> (*final(state) matches Some(InProgressState::Scheduled { done_event })
            && done_event.wf() && !done_event.fired && done_event.waiting == 1 && !r.1.ready),
        *old(state) matches Some(s) ==> (*final(state) matches Some(t)
            && t.done_event().wf()
            && t.done_event().fired == s.done_event().fired
            && r.1.ready == s.done_event().fired
            && t.done_event().waiting == (if s.done_event().fired { s.done_event().waiting as int } else { s.done_event().waiting + 1 })
            && (s is Scheduled <==> t is Scheduled)
            && (s matches InProgressState::InProgress { stale, once_task, .. } ==>
                t matches InProgressState::InProgress { stale: t_stale, once_task: t_once, .. }
                    && t_stale == stale && t_once == once_task)),
{
    match state {
        None => {
            let mut done_event = Event::new(description);
            let listener = done_event.listen();
            *state = Some(InProgressState::Scheduled { done_event });
            (true, listener)
        },
        Some(InProgressState::Scheduled { done_event }) => {
            let listener = done_event.listen();
            (false, listener)
        },
        Some(InProgressState::InProgress { done_event, .. }) => {
            let listener = done_event.listen();
            (false, listener)
        },
    }
}

/// Moves a scheduled task to running, keeping its `done_event` and its waiters.
pub fn start_execution(state: &mut Option<InProgressState>, once_task: bool) -> (r: Result<(), LifecycleError>)
    ensures
        (*old(state) matches Some(InProgressState::Scheduled { .. })) ==> r is Ok,
        (*old(state) matches Some(InProgressState::Scheduled { .. })) ==> (*final(state) matches Some(InProgressState::InProgress { stale, once_task: t_once, done_event })
            && !stale && t_once == once_task && done_event == (*old(state)).unwrap().done_event()),
        !(*old(state) matches Some(InProgressState::Scheduled { .. })) ==>
            r == Err::<(), LifecycleError>(LifecycleError::NotScheduled) && *final(state) == *old(state),
{
    match state.take() {
        Some(InProgressState::Scheduled { done_event }) => {
            *state = Some(InProgressState::InProgress { stale: false, once_task, done_event });
            Ok(())
        },
        other => {
            *state = other;
            Err(LifecycleError::NotScheduled)
        },
    }
}

/// Records an invalidation observed while the task runs. Returns whether it was running;
/// `stale` is set and never cleared.
pub fn mark_stale(state: &mut Option<InProgressState>) -> (r: bool)
    ensures
        r == (*old(state) matches Some(InProgressState::InProgress { .. })),
        r ==> (*final(state) matches Some(InProgressState::InProgress { stale, once_task, done_event })
            && stale && once_task == (*old(state) matches Some(InProgressState::InProgress { once_task: o, .. }) && o)
            && done_event == (*old(state)).unwrap().done_event()),
        !r ==> *final(state) == *old(state),
{
    match state {
        Some(InProgressState::InProgress { stale, .. }) => {
            *stale = true;
            true
        },
        _ => false,
    }
}

/// Ends a running execution: the state is removed and its `done_event` fires once, waking
/// every party that registered on it.
pub fn complete_execution(state: &mut Option<InProgressState>) -> (r: Result<Completion, LifecycleError>)
    requires
        *old(state) matches Some(s) ==> s.done_event().wf(),
    ensures
        *old(state) matches Some(InProgressState::InProgress { stale, done_event, .. })
            ==> *final(state) is None && (if done_event.fired {
                r == Err::<Completion, LifecycleError>(LifecycleError::AlreadyFired)
            } else {
                r == Ok::<Completion, LifecycleError>(Completion { stale, woken: done_event.waiting })
            }),
        !(*old(state) matches Some(InProgressState::InProgress { .. })) ==>
            r == Err::<Completion, LifecycleError>(LifecycleError::NotRunning) && *final(state) == *old(state),
{
    match state.take() {
        Some(InProgressState::InProgress { stale, once_task: _, mut done_event }) => {
            match done_event.notify() {
                Ok(woken) => Ok(Completion { stale, woken }),
                Err(EventError::AlreadyFired) => Err(LifecycleError::AlreadyFired),
            }
        },
        other => {
            *state = other;
            Err(LifecycleError::NotRunning)
        },
    }
}

/// Ends the computation of a cell: the record is consumed and its event fires, releasing the
/// readers that waited on that cell.
pub fn complete_cell(cell: InProgressCellState) -> (r: Result<u64, EventError>)
    requires
        cell.event.wf(),
    ensures
        !cell.event.fired ==> r == Ok::<u64, EventError>(cell.event.waiting),
        cell.event.fired ==> r == Err::<u64, EventError>(EventError::AlreadyFired),
{
    let mut event = cell.event;
    event.notify()
}

/// Writes a computed cell value. The cell's in-progress record, if any, is removed and its
/// event fires; the number of readers woken is returned.
pub fn write_cell(storage: &mut TaskStorage, cell: CellId, content: SharedReference) -> (r: Option<u64>)
    requires
        old(storage).wf(),
        old(storage)@.contains_key(CachedDataItemKey::InProgressCell { cell }) ==>
            (old(storage)@[CachedDataItemKey::InProgressCell { cell }] matches CachedDataItem::InProgressCell { value, .. }
                && value.event.wf()),
    ensures
        final(storage).wf(),
        final(storage)@ == old(storage)@.remove(CachedDataItemKey::InProgressCell { cell }).insert(
            CachedDataItemKey::CellData { cell },
            CachedDataItem::CellData { cell, value: content },
        ),
        !old(storage)@.contains_key(CachedDataItemKey::InProgressCell { cell }) ==> r is None,
        old(storage)@.contains_key(CachedDataItemKey::InProgressCell { cell }) ==>
            (old(storage)@[CachedDataItemKey::InProgressCell { cell }] matches CachedDataItem::InProgressCell { value, .. }
                && r == (if value.event.fired { None } else { Some(value.event.waiting) })),
{
    let key = CachedDataItemKey::InProgressCell { cell };
    let prev = storage.remove(&key);
    storage.insert(CachedDataItem::CellData { cell, value: content });
    match prev {
        Some(CachedDataItem::InProgressCell { value, .. }) => match complete_cell(value) {
            Ok(woken) => Some(woken),
            Err(_) => None,
        },
        _ => None,
    }
}

/// Reacts to the aggregated dirty count of a root. A root kept active only until clean is
/// removed once the count reaches zero, and its `all_clean_event` fires; the number of parties
/// woken is returned. Explicit roots and run-once tasks are not reset by cleanliness.
pub fn on_dirty_count(root: &mut Option<RootState>, dirty_count: i32) -> (r: Option<u64>)
    requires
        *old(root) matches Some(s) ==> s.all_clean_event.wf(),
    ensures
        (*old(root) matches Some(s) && s.ty == ActiveType::CachedActiveUntilClean && dirty_count == 0)
            ==> *final(root) is None
                && r == (if (*old(root)).unwrap().all_clean_event.fired { None } else { Some((*old(root)).unwrap().all_clean_event.waiting) }),
        !(*old(root) matches Some(s) && s.ty == ActiveType::CachedActiveUntilClean && dirty_count == 0)
            ==> *final(root) == *old(root) && r is None,
{
    let reset = match root {
        Some(s) => dirty_count == 0 && matches!(s.ty, ActiveType::CachedActiveUntilClean),
        None => false,
    };
    if !reset {
        return None;
    }
    match root.take() {
        Some(s) => {
            let mut event = s.all_clean_event;
            match event.notify() {
                Ok(woken) => Some(woken),
                Err(_) => None,
            }
        },
        None => None,
    }
}

} // verus!
