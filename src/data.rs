use crate::event::{Event, EventListener};
use crate::ids::{CellId, SharedError, SharedReference, TaskId, ValueTypeId};
use vstd::prelude::*;

verus! {

/// A cell of a task.
#[derive(Debug, Clone, Copy, PartialEq, Eq, Structural, Hash)]
pub struct CellRef {
    pub task: TaskId,
    pub cell: CellId,
}

/// The collectibles of one value type below a task.
#[derive(Debug, Clone, Copy, PartialEq, Eq, Structural, Hash)]
pub struct CollectiblesRef {
    pub task: TaskId,
    pub collectible_type: ValueTypeId,
}

/// The result of a task: a cell, another task's output, or a failure.
#[derive(Debug, Clone, Copy, PartialEq, Eq, Structural)]
pub enum OutputValue {
    Cell(CellRef),
    Output(TaskId),
    Error,
    Panic,
}

impl OutputValue {
    /// The output refers to a transient task.
    pub open spec fn transient(&self) -> bool {
        match self {
            OutputValue::Cell(cell) => cell.task.transient,
            OutputValue::Output(task) => task.transient,
            OutputValue::Error => false,
            OutputValue::Panic => false,
        }
    }

    pub fn is_transient(&self) -> (r: bool)
        ensures
            r == self.transient(),
    {
        match self {
            OutputValue::Cell(cell) => cell.task.is_transient(),
            OutputValue::Output(task) => task.is_transient(),
            OutputValue::Error => false,
            OutputValue::Panic => false,
        }
    }
}

/// Why a task is kept active.
#[derive(Debug, Clone, Copy, PartialEq, Eq, Structural)]
pub enum ActiveType {
    RootTask,
    OnceTask,
    /// The aggregated task graph was scheduled because propagating the dirty container reached
    /// an aggregate root, or because it is read strongly consistent. This state is reset when
    /// the whole sub graph becomes clean again.
    CachedActiveUntilClean,
}

/// The root activity of a task. It owns `all_clean_event` and cannot be duplicated.
#[derive(Debug)]
pub struct RootState {
    pub ty: ActiveType,
    pub all_clean_event: Event,
}

impl RootState {
    pub fn new(ty: ActiveType) -> (r: RootState)
        ensures
            r.ty == ty,
            r.all_clean_event.wf(),
            !r.all_clean_event.fired,
            r.all_clean_event.waiting == 0,
    {
        RootState { ty, all_clean_event: Event::new("RootState::all_clean_event".to_owned()) }
    }
}

/// The execution state of a task. It owns `done_event` and cannot be duplicated.
#[derive(Debug)]
pub enum InProgressState {
    Scheduled { done_event: Event },
    InProgress { stale: bool, once_task: bool, done_event: Event },
}

/// A cell whose value is being computed. It owns `event` and cannot be duplicated.
#[derive(Debug)]
pub struct InProgressCellState {
    pub event: Event,
}

impl InProgressCellState {
    pub fn new(_task_id: TaskId, _cell: CellId) -> (r: InProgressCellState)
        ensures
            r.event.wf(),
            !r.event.fired,
            r.event.waiting == 0,
    {
        InProgressCellState { event: Event::new("InProgressCellState::event".to_owned()) }
    }
}

/// The place of a task in the aggregation tree.
#[derive(Debug, Clone, Copy, PartialEq, Eq, Structural)]
pub struct AggregationNumber {
    pub base: u32,
    pub distance: u32,
    pub effective: u32,
}

impl Default for AggregationNumber {
    fn default() -> (r: AggregationNumber)
        ensures
            r.base == 0 && r.distance == 0 && r.effective == 0,
    {
        AggregationNumber { base: 0, distance: 0, effective: 0 }
    }
}

/// One record stored for a task.
#[derive(Debug)]
pub enum CachedDataItem {
    // Output
    Output { value: OutputValue },
    Collectible { collectible: CellRef, value: () },
    // State
    Dirty { value: () },
    DirtyWhenPersisted { value: () },
    // Children
    Child { task: TaskId, value: () },
    // Cells
    CellData { cell: CellId, value: SharedReference },
    CellTypeMaxIndex { cell_type: ValueTypeId, value: u32 },
    // Dependencies
    OutputDependency { target: TaskId, value: () },
    CellDependency { target: CellRef, value: () },
    CollectiblesDependency { target: CollectiblesRef, value: () },
    // Dependents
    OutputDependent { task: TaskId, value: () },
    CellDependent { cell: CellId, task: TaskId, value: () },
    CollectiblesDependent { collectibles_type: ValueTypeId, task: TaskId, value: () },
    // Aggregation graph
    AggregationNumber { value: AggregationNumber },
    Follower { task: TaskId, value: i32 },
    Upper { task: TaskId, value: i32 },
    // Aggregated data
    AggregatedDirtyContainer { task: TaskId, value: i32 },
    AggregatedCollectible { collectible: CellRef, value: i32 },
    AggregatedDirtyContainerCount { value: i32 },
    // Transient root state
    AggregateRoot { value: RootState },
    // Transient in-progress state
    InProgress { value: InProgressState },
    InProgressCell { cell: CellId, value: InProgressCellState },
    OutdatedCollectible { collectible: CellRef, value: () },
    OutdatedOutputDependency { target: TaskId, value: () },
    OutdatedCellDependency { target: CellRef, value: () },
    OutdatedChild { task: TaskId, value: () },
    // Transient error state
    Error { value: SharedError },
}

/// The key of a record: its kind and the fields that address it within a task.
#[derive(Debug, Clone, Copy, PartialEq, Eq, Structural, Hash)]
pub enum CachedDataItemKey {
    Output,
    Collectible { collectible: CellRef },
    Dirty,
    DirtyWhenPersisted,
    Child { task: TaskId },
    CellData { cell: CellId },
    CellTypeMaxIndex { cell_type: ValueTypeId },
    OutputDependency { target: TaskId },
    CellDependency { target: CellRef },
    CollectiblesDependency { target: CollectiblesRef },
    OutputDependent { task: TaskId },
    CellDependent { cell: CellId, task: TaskId },
    CollectiblesDependent { collectibles_type: ValueTypeId, task: TaskId },
    AggregationNumber,
    Follower { task: TaskId },
    Upper { task: TaskId },
    AggregatedDirtyContainer { task: TaskId },
    AggregatedCollectible { collectible: CellRef },
    AggregatedDirtyContainerCount,
    AggregateRoot,
    InProgress,
    InProgressCell { cell: CellId },
    OutdatedCollectible { collectible: CellRef },
    OutdatedOutputDependency { target: TaskId },
    OutdatedCellDependency { target: CellRef },
    OutdatedChild { task: TaskId },
    Error,
}

/// The value of a record, of the kind of its key.
#[derive(Debug)]
pub enum CachedDataItemValue {
    Output { value: OutputValue },
    Collectible { value: () },
    Dirty { value: () },
    DirtyWhenPersisted { value: () },
    Child { value: () },
    CellData { value: SharedReference },
    CellTypeMaxIndex { value: u32 },
    OutputDependency { value: () },
    CellDependency { value: () },
    CollectiblesDependency { value: () },
    OutputDependent { value: () },
    CellDependent { value: () },
    CollectiblesDependent { value: () },
    AggregationNumber { value: AggregationNumber },
    Follower { value: i32 },
    Upper { value: i32 },
    AggregatedDirtyContainer { value: i32 },
    AggregatedCollectible { value: i32 },
    AggregatedDirtyContainerCount { value: i32 },
    AggregateRoot { value: RootState },
    InProgress { value: InProgressState },
    InProgressCell { value: InProgressCellState },
    OutdatedCollectible { value: () },
    OutdatedOutputDependency { value: () },
    OutdatedCellDependency { value: () },
    OutdatedChild { value: () },
    Error { value: SharedError },
}

/// A secondary index: the kinds of record that can be listed together for one task.
#[derive(Debug, Clone, Copy, PartialEq, Eq, Structural, Hash)]
pub enum CachedDataItemIndex {
    Children,
    Follower,
    Upper,
    AggregatedDirtyContainer,
    CellData,
    CellTypeMaxIndex,
    CellDependent,
    OutputDependent,
    Dependencies,
}

impl CachedDataItemKey {
    /// A key is persistent unless its kind is transient or a task that it names is transient.
    pub open spec fn persistent(&self) -> bool {
        match *self {
            CachedDataItemKey::Output => true,
            CachedDataItemKey::Collectible { collectible } => !collectible.task.transient,
            CachedDataItemKey::Dirty => true,
            CachedDataItemKey::DirtyWhenPersisted => true,
            CachedDataItemKey::Child { task } => !task.transient,
            CachedDataItemKey::CellData { .. } => true,
            CachedDataItemKey::CellTypeMaxIndex { .. } => true,
            CachedDataItemKey::OutputDependency { target } => !target.transient,
            CachedDataItemKey::CellDependency { target } => !target.task.transient,
            CachedDataItemKey::CollectiblesDependency { target } => !target.task.transient,
            CachedDataItemKey::OutputDependent { task } => !task.transient,
            CachedDataItemKey::CellDependent { cell, task } => !task.transient,
            CachedDataItemKey::CollectiblesDependent { collectibles_type, task } => !task.transient,
            CachedDataItemKey::AggregationNumber => true,
            CachedDataItemKey::Follower { task } => !task.transient,
            CachedDataItemKey::Upper { task } => !task.transient,
            CachedDataItemKey::AggregatedDirtyContainer { task } => !task.transient,
            CachedDataItemKey::AggregatedCollectible { collectible } => !collectible.task.transient,
            CachedDataItemKey::AggregatedDirtyContainerCount => true,
            CachedDataItemKey::AggregateRoot => false,
            CachedDataItemKey::InProgress => false,
            CachedDataItemKey::InProgressCell { .. } => false,
            CachedDataItemKey::OutdatedCollectible { .. } => false,
            CachedDataItemKey::OutdatedOutputDependency { .. } => false,
            CachedDataItemKey::OutdatedCellDependency { .. } => false,
            CachedDataItemKey::OutdatedChild { .. } => false,
            CachedDataItemKey::Error => false,
        }
    }

    pub fn is_persistent(&self) -> (r: bool)
        ensures
            r == self.persistent(),
    {
        match *self {
            CachedDataItemKey::Output => true,
            CachedDataItemKey::Collectible { collectible } => !collectible.task.is_transient(),
            CachedDataItemKey::Dirty => true,
            CachedDataItemKey::DirtyWhenPersisted => true,
            CachedDataItemKey::Child { task } => !task.is_transient(),
            CachedDataItemKey::CellData { .. } => true,
            CachedDataItemKey::CellTypeMaxIndex { .. } => true,
            CachedDataItemKey::OutputDependency { target } => !target.is_transient(),
            CachedDataItemKey::CellDependency { target } => !target.task.is_transient(),
            CachedDataItemKey::CollectiblesDependency { target } => !target.task.is_transient(),
            CachedDataItemKey::OutputDependent { task } => !task.is_transient(),
            CachedDataItemKey::CellDependent { cell, task } => !task.is_transient(),
            CachedDataItemKey::CollectiblesDependent { collectibles_type, task } => !task.is_transient(),
            CachedDataItemKey::AggregationNumber => true,
            CachedDataItemKey::Follower { task } => !task.is_transient(),
            CachedDataItemKey::Upper { task } => !task.is_transient(),
            CachedDataItemKey::AggregatedDirtyContainer { task } => !task.is_transient(),
            CachedDataItemKey::AggregatedCollectible { collectible } => !collectible.task.is_transient(),
            CachedDataItemKey::AggregatedDirtyContainerCount => true,
            CachedDataItemKey::AggregateRoot => false,
            CachedDataItemKey::InProgress => false,
            CachedDataItemKey::InProgressCell { .. } => false,
            CachedDataItemKey::OutdatedCollectible { .. } => false,
            CachedDataItemKey::OutdatedOutputDependency { .. } => false,
            CachedDataItemKey::OutdatedCellDependency { .. } => false,
            CachedDataItemKey::OutdatedChild { .. } => false,
            CachedDataItemKey::Error => false,
        }
    }

    /// The secondary index that a key belongs to, if any.
    pub open spec fn spec_index(&self) -> Option<CachedDataItemIndex> {
        match *self {
            CachedDataItemKey::Child { .. } => Some(CachedDataItemIndex::Children),
            CachedDataItemKey::CellData { .. } => Some(CachedDataItemIndex::CellData),
            CachedDataItemKey::CellTypeMaxIndex { .. } => Some(CachedDataItemIndex::CellTypeMaxIndex),
            CachedDataItemKey::OutputDependency { .. } => Some(CachedDataItemIndex::Dependencies),
            CachedDataItemKey::CellDependency { .. } => Some(CachedDataItemIndex::Dependencies),
            CachedDataItemKey::OutputDependent { .. } => Some(CachedDataItemIndex::OutputDependent),
            CachedDataItemKey::CellDependent { .. } => Some(CachedDataItemIndex::CellDependent),
            CachedDataItemKey::Follower { .. } => Some(CachedDataItemIndex::Follower),
            CachedDataItemKey::Upper { .. } => Some(CachedDataItemIndex::Upper),
            CachedDataItemKey::AggregatedDirtyContainer { .. } => Some(CachedDataItemIndex::AggregatedDirtyContainer),
            CachedDataItemKey::OutdatedOutputDependency { .. } => Some(CachedDataItemIndex::Dependencies),
            CachedDataItemKey::OutdatedCellDependency { .. } => Some(CachedDataItemIndex::Dependencies),
            CachedDataItemKey::OutdatedChild { .. } => Some(CachedDataItemIndex::Children),
            _ => None,
        }
    }

    pub fn index(&self) -> (r: Option<CachedDataItemIndex>)
        ensures
            r == self.spec_index(),
    {
        match *self {
            CachedDataItemKey::Child { .. } => Some(CachedDataItemIndex::Children),
            CachedDataItemKey::CellData { .. } => Some(CachedDataItemIndex::CellData),
            CachedDataItemKey::CellTypeMaxIndex { .. } => Some(CachedDataItemIndex::CellTypeMaxIndex),
            CachedDataItemKey::OutputDependency { .. } => Some(CachedDataItemIndex::Dependencies),
            CachedDataItemKey::CellDependency { .. } => Some(CachedDataItemIndex::Dependencies),
            CachedDataItemKey::OutputDependent { .. } => Some(CachedDataItemIndex::OutputDependent),
            CachedDataItemKey::CellDependent { .. } => Some(CachedDataItemIndex::CellDependent),
            CachedDataItemKey::Follower { .. } => Some(CachedDataItemIndex::Follower),
            CachedDataItemKey::Upper { .. } => Some(CachedDataItemIndex::Upper),
            CachedDataItemKey::AggregatedDirtyContainer { .. } => Some(CachedDataItemIndex::AggregatedDirtyContainer),
            CachedDataItemKey::OutdatedOutputDependency { .. } => Some(CachedDataItemIndex::Dependencies),
            CachedDataItemKey::OutdatedCellDependency { .. } => Some(CachedDataItemIndex::Dependencies),
            CachedDataItemKey::OutdatedChild { .. } => Some(CachedDataItemIndex::Children),
            _ => None,
        }
    }
}

impl CachedDataItemValue {
    /// A value is persistent unless it is an output that refers to a transient task.
    pub open spec fn persistent(&self) -> bool {
        match self {
            CachedDataItemValue::Output { value } => !value.transient(),
            _ => true,
        }
    }

    pub fn is_persistent(&self) -> (r: bool)
        ensures
            r == self.persistent(),
    {
        match self {
            CachedDataItemValue::Output { value } => !value.is_transient(),
            _ => true,
        }
    }
}

impl CachedDataItem {
    pub open spec fn spec_key(&self) -> CachedDataItemKey {
        match *self {
            CachedDataItem::Output { .. } => CachedDataItemKey::Output,
            CachedDataItem::Collectible { collectible, value: _ } => CachedDataItemKey::Collectible { collectible },
            CachedDataItem::Dirty { .. } => CachedDataItemKey::Dirty,
            CachedDataItem::DirtyWhenPersisted { .. } => CachedDataItemKey::DirtyWhenPersisted,
            CachedDataItem::Child { task, value: _ } => CachedDataItemKey::Child { task },
            CachedDataItem::CellData { cell, value: _ } => CachedDataItemKey::CellData { cell },
            CachedDataItem::CellTypeMaxIndex { cell_type, value: _ } => CachedDataItemKey::CellTypeMaxIndex { cell_type },
            CachedDataItem::OutputDependency { target, value: _ } => CachedDataItemKey::OutputDependency { target },
            CachedDataItem::CellDependency { target, value: _ } => CachedDataItemKey::CellDependency { target },
            CachedDataItem::CollectiblesDependency { target, value: _ } => CachedDataItemKey::CollectiblesDependency { target },
            CachedDataItem::OutputDependent { task, value: _ } => CachedDataItemKey::OutputDependent { task },
            CachedDataItem::CellDependent { cell, task, value: _ } => CachedDataItemKey::CellDependent { cell, task },
            CachedDataItem::CollectiblesDependent { collectibles_type, task, value: _ } => CachedDataItemKey::CollectiblesDependent { collectibles_type, task },
            CachedDataItem::AggregationNumber { .. } => CachedDataItemKey::AggregationNumber,
            CachedDataItem::Follower { task, value: _ } => CachedDataItemKey::Follower { task },
            CachedDataItem::Upper { task, value: _ } => CachedDataItemKey::Upper { task },
            CachedDataItem::AggregatedDirtyContainer { task, value: _ } => CachedDataItemKey::AggregatedDirtyContainer { task },
            CachedDataItem::AggregatedCollectible { collectible, value: _ } => CachedDataItemKey::AggregatedCollectible { collectible },
            CachedDataItem::AggregatedDirtyContainerCount { .. } => CachedDataItemKey::AggregatedDirtyContainerCount,
            CachedDataItem::AggregateRoot { .. } => CachedDataItemKey::AggregateRoot,
            CachedDataItem::InProgress { .. } => CachedDataItemKey::InProgress,
            CachedDataItem::InProgressCell { cell, value: _ } => CachedDataItemKey::InProgressCell { cell },
            CachedDataItem::OutdatedCollectible { collectible, value: _ } => CachedDataItemKey::OutdatedCollectible { collectible },
            CachedDataItem::OutdatedOutputDependency { target, value: _ } => CachedDataItemKey::OutdatedOutputDependency { target },
            CachedDataItem::OutdatedCellDependency { target, value: _ } => CachedDataItemKey::OutdatedCellDependency { target },
            CachedDataItem::OutdatedChild { task, value: _ } => CachedDataItemKey::OutdatedChild { task },
            CachedDataItem::Error { .. } => CachedDataItemKey::Error,
        }
    }

    pub open spec fn spec_value(&self) -> CachedDataItemValue {
        match *self {
            CachedDataItem::Output { value, .. } => CachedDataItemValue::Output { value },
            CachedDataItem::Collectible { value, .. } => CachedDataItemValue::Collectible { value },
            CachedDataItem::Dirty { value, .. } => CachedDataItemValue::Dirty { value },
            CachedDataItem::DirtyWhenPersisted { value, .. } => CachedDataItemValue::DirtyWhenPersisted { value },
            CachedDataItem::Child { value, .. } => CachedDataItemValue::Child { value },
            CachedDataItem::CellData { value, .. } => CachedDataItemValue::CellData { value },
            CachedDataItem::CellTypeMaxIndex { value, .. } => CachedDataItemValue::CellTypeMaxIndex { value },
            CachedDataItem::OutputDependency { value, .. } => CachedDataItemValue::OutputDependency { value },
            CachedDataItem::CellDependency { value, .. } => CachedDataItemValue::CellDependency { value },
            CachedDataItem::CollectiblesDependency { value, .. } => CachedDataItemValue::CollectiblesDependency { value },
            CachedDataItem::OutputDependent { value, .. } => CachedDataItemValue::OutputDependent { value },
            CachedDataItem::CellDependent { value, .. } => CachedDataItemValue::CellDependent { value },
            CachedDataItem::CollectiblesDependent { value, .. } => CachedDataItemValue::CollectiblesDependent { value },
            CachedDataItem::AggregationNumber { value, .. } => CachedDataItemValue::AggregationNumber { value },
            CachedDataItem::Follower { value, .. } => CachedDataItemValue::Follower { value },
            CachedDataItem::Upper { value, .. } => CachedDataItemValue::Upper { value },
            CachedDataItem::AggregatedDirtyContainer { value, .. } => CachedDataItemValue::AggregatedDirtyContainer { value },
            CachedDataItem::AggregatedCollectible { value, .. } => CachedDataItemValue::AggregatedCollectible { value },
            CachedDataItem::AggregatedDirtyContainerCount { value, .. } => CachedDataItemValue::AggregatedDirtyContainerCount { value },
            CachedDataItem::AggregateRoot { value, .. } => CachedDataItemValue::AggregateRoot { value },
            CachedDataItem::InProgress { value, .. } => CachedDataItemValue::InProgress { value },
            CachedDataItem::InProgressCell { value, .. } => CachedDataItemValue::InProgressCell { value },
            CachedDataItem::OutdatedCollectible { value, .. } => CachedDataItemValue::OutdatedCollectible { value },
            CachedDataItem::OutdatedOutputDependency { value, .. } => CachedDataItemValue::OutdatedOutputDependency { value },
            CachedDataItem::OutdatedCellDependency { value, .. } => CachedDataItemValue::OutdatedCellDependency { value },
            CachedDataItem::OutdatedChild { value, .. } => CachedDataItemValue::OutdatedChild { value },
            CachedDataItem::Error { value, .. } => CachedDataItemValue::Error { value },
        }
    }

    /// The record made of a key and a value, if both are of the same kind.
    pub open spec fn join(key: CachedDataItemKey, value: CachedDataItemValue) -> Option<CachedDataItem> {
        match (key, value) {
            (CachedDataItemKey::Output, CachedDataItemValue::Output { value }) => Some(CachedDataItem::Output { value }),
            (CachedDataItemKey::Collectible { collectible }, CachedDataItemValue::Collectible { value }) => Some(CachedDataItem::Collectible { collectible, value }),
            (CachedDataItemKey::Dirty, CachedDataItemValue::Dirty { value }) => Some(CachedDataItem::Dirty { value }),
            (CachedDataItemKey::DirtyWhenPersisted, CachedDataItemValue::DirtyWhenPersisted { value }) => Some(CachedDataItem::DirtyWhenPersisted { value }),
            (CachedDataItemKey::Child { task }, CachedDataItemValue::Child { value }) => Some(CachedDataItem::Child { task, value }),
            (CachedDataItemKey::CellData { cell }, CachedDataItemValue::CellData { value }) => Some(CachedDataItem::CellData { cell, value }),
            (CachedDataItemKey::CellTypeMaxIndex { cell_type }, CachedDataItemValue::CellTypeMaxIndex { value }) => Some(CachedDataItem::CellTypeMaxIndex { cell_type, value }),
            (CachedDataItemKey::OutputDependency { target }, CachedDataItemValue::OutputDependency { value }) => Some(CachedDataItem::OutputDependency { target, value }),
            (CachedDataItemKey::CellDependency { target }, CachedDataItemValue::CellDependency { value }) => Some(CachedDataItem::CellDependency { target, value }),
            (CachedDataItemKey::CollectiblesDependency { target }, CachedDataItemValue::CollectiblesDependency { value }) => Some(CachedDataItem::CollectiblesDependency { target, value }),
            (CachedDataItemKey::OutputDependent { task }, CachedDataItemValue::OutputDependent { value }) => Some(CachedDataItem::OutputDependent { task, value }),
            (CachedDataItemKey::CellDependent { cell, task }, CachedDataItemValue::CellDependent { value }) => Some(CachedDataItem::CellDependent { cell, task, value }),
            (CachedDataItemKey::CollectiblesDependent { collectibles_type, task }, CachedDataItemValue::CollectiblesDependent { value }) => Some(CachedDataItem::CollectiblesDependent { collectibles_type, task, value }),
            (CachedDataItemKey::AggregationNumber, CachedDataItemValue::AggregationNumber { value }) => Some(CachedDataItem::AggregationNumber { value }),
            (CachedDataItemKey::Follower { task }, CachedDataItemValue::Follower { value }) => Some(CachedDataItem::Follower { task, value }),
            (CachedDataItemKey::Upper { task }, CachedDataItemValue::Upper { value }) => Some(CachedDataItem::Upper { task, value }),
            (CachedDataItemKey::AggregatedDirtyContainer { task }, CachedDataItemValue::AggregatedDirtyContainer { value }) => Some(CachedDataItem::AggregatedDirtyContainer { task, value }),
            (CachedDataItemKey::AggregatedCollectible { collectible }, CachedDataItemValue::AggregatedCollectible { value }) => Some(CachedDataItem::AggregatedCollectible { collectible, value }),
            (CachedDataItemKey::AggregatedDirtyContainerCount, CachedDataItemValue::AggregatedDirtyContainerCount { value }) => Some(CachedDataItem::AggregatedDirtyContainerCount { value }),
            (CachedDataItemKey::AggregateRoot, CachedDataItemValue::AggregateRoot { value }) => Some(CachedDataItem::AggregateRoot { value }),
            (CachedDataItemKey::InProgress, CachedDataItemValue::InProgress { value }) => Some(CachedDataItem::InProgress { value }),
            (CachedDataItemKey::InProgressCell { cell }, CachedDataItemValue::InProgressCell { value }) => Some(CachedDataItem::InProgressCell { cell, value }),
            (CachedDataItemKey::OutdatedCollectible { collectible }, CachedDataItemValue::OutdatedCollectible { value }) => Some(CachedDataItem::OutdatedCollectible { collectible, value }),
            (CachedDataItemKey::OutdatedOutputDependency { target }, CachedDataItemValue::OutdatedOutputDependency { value }) => Some(CachedDataItem::OutdatedOutputDependency { target, value }),
            (CachedDataItemKey::OutdatedCellDependency { target }, CachedDataItemValue::OutdatedCellDependency { value }) => Some(CachedDataItem::OutdatedCellDependency { target, value }),
            (CachedDataItemKey::OutdatedChild { task }, CachedDataItemValue::OutdatedChild { value }) => Some(CachedDataItem::OutdatedChild { task, value }),
            (CachedDataItemKey::Error, CachedDataItemValue::Error { value }) => Some(CachedDataItem::Error { value }),
            _ => None,
        }
    }

    /// A record is persistent when both its key and its value are.
    pub open spec fn persistent(&self) -> bool {
        self.spec_key().persistent() && self.spec_value().persistent()
    }

    pub fn is_persistent(&self) -> (r: bool)
        ensures
            r == self.persistent(),
    {
        match self {
            CachedDataItem::Output { value } => !value.is_transient(),
            CachedDataItem::Collectible { collectible, .. } => !collectible.task.is_transient(),
            CachedDataItem::Dirty { .. } => true,
            CachedDataItem::DirtyWhenPersisted { .. } => true,
            CachedDataItem::Child { task, .. } => !task.is_transient(),
            CachedDataItem::CellData { .. } => true,
            CachedDataItem::CellTypeMaxIndex { .. } => true,
            CachedDataItem::OutputDependency { target, .. } => !target.is_transient(),
            CachedDataItem::CellDependency { target, .. } => !target.task.is_transient(),
            CachedDataItem::CollectiblesDependency { target, .. } => !target.task.is_transient(),
            CachedDataItem::OutputDependent { task, .. } => !task.is_transient(),
            CachedDataItem::CellDependent { task, .. } => !task.is_transient(),
            CachedDataItem::CollectiblesDependent { task, .. } => !task.is_transient(),
            CachedDataItem::AggregationNumber { .. } => true,
            CachedDataItem::Follower { task, .. } => !task.is_transient(),
            CachedDataItem::Upper { task, .. } => !task.is_transient(),
            CachedDataItem::AggregatedDirtyContainer { task, .. } => !task.is_transient(),
            CachedDataItem::AggregatedCollectible { collectible, .. } => !collectible.task.is_transient(),
            CachedDataItem::AggregatedDirtyContainerCount { .. } => true,
            CachedDataItem::AggregateRoot { .. } => false,
            CachedDataItem::InProgress { .. } => false,
            CachedDataItem::InProgressCell { .. } => false,
            CachedDataItem::OutdatedCollectible { .. } => false,
            CachedDataItem::OutdatedOutputDependency { .. } => false,
            CachedDataItem::OutdatedCellDependency { .. } => false,
            CachedDataItem::OutdatedChild { .. } => false,
            CachedDataItem::Error { .. } => false,
        }
    }

    pub fn key(&self) -> (r: CachedDataItemKey)
        ensures
            r == self.spec_key(),
    {
        match self {
            CachedDataItem::Output { .. } => CachedDataItemKey::Output,
            CachedDataItem::Collectible { collectible, .. } => CachedDataItemKey::Collectible { collectible: *collectible },
            CachedDataItem::Dirty { .. } => CachedDataItemKey::Dirty,
            CachedDataItem::DirtyWhenPersisted { .. } => CachedDataItemKey::DirtyWhenPersisted,
            CachedDataItem::Child { task, .. } => CachedDataItemKey::Child { task: *task },
            CachedDataItem::CellData { cell, .. } => CachedDataItemKey::CellData { cell: *cell },
            CachedDataItem::CellTypeMaxIndex { cell_type, .. } => CachedDataItemKey::CellTypeMaxIndex { cell_type: *cell_type },
            CachedDataItem::OutputDependency { target, .. } => CachedDataItemKey::OutputDependency { target: *target },
            CachedDataItem::CellDependency { target, .. } => CachedDataItemKey::CellDependency { target: *target },
            CachedDataItem::CollectiblesDependency { target, .. } => CachedDataItemKey::CollectiblesDependency { target: *target },
            CachedDataItem::OutputDependent { task, .. } => CachedDataItemKey::OutputDependent { task: *task },
            CachedDataItem::CellDependent { cell, task, .. } => CachedDataItemKey::CellDependent { cell: *cell, task: *task },
            CachedDataItem::CollectiblesDependent { collectibles_type, task, .. } => CachedDataItemKey::CollectiblesDependent { collectibles_type: *collectibles_type, task: *task },
            CachedDataItem::AggregationNumber { .. } => CachedDataItemKey::AggregationNumber,
            CachedDataItem::Follower { task, .. } => CachedDataItemKey::Follower { task: *task },
            CachedDataItem::Upper { task, .. } => CachedDataItemKey::Upper { task: *task },
            CachedDataItem::AggregatedDirtyContainer { task, .. } => CachedDataItemKey::AggregatedDirtyContainer { task: *task },
            CachedDataItem::AggregatedCollectible { collectible, .. } => CachedDataItemKey::AggregatedCollectible { collectible: *collectible },
            CachedDataItem::AggregatedDirtyContainerCount { .. } => CachedDataItemKey::AggregatedDirtyContainerCount,
            CachedDataItem::AggregateRoot { .. } => CachedDataItemKey::AggregateRoot,
            CachedDataItem::InProgress { .. } => CachedDataItemKey::InProgress,
            CachedDataItem::InProgressCell { cell, .. } => CachedDataItemKey::InProgressCell { cell: *cell },
            CachedDataItem::OutdatedCollectible { collectible, .. } => CachedDataItemKey::OutdatedCollectible { collectible: *collectible },
            CachedDataItem::OutdatedOutputDependency { target, .. } => CachedDataItemKey::OutdatedOutputDependency { target: *target },
            CachedDataItem::OutdatedCellDependency { target, .. } => CachedDataItemKey::OutdatedCellDependency { target: *target },
            CachedDataItem::OutdatedChild { task, .. } => CachedDataItemKey::OutdatedChild { task: *task },
            CachedDataItem::Error { .. } => CachedDataItemKey::Error,
        }
    }

    /// Splits a record into its key and its value.
    pub fn into_key_and_value(self) -> (r: (CachedDataItemKey, CachedDataItemValue))
        ensures
            r.0 == self.spec_key(),
            r.1 == self.spec_value(),
    {
        match self {
            CachedDataItem::Output { value } => (CachedDataItemKey::Output, CachedDataItemValue::Output { value }),
            CachedDataItem::Collectible { collectible, value } => (CachedDataItemKey::Collectible { collectible }, CachedDataItemValue::Collectible { value }),
            CachedDataItem::Dirty { value } => (CachedDataItemKey::Dirty, CachedDataItemValue::Dirty { value }),
            CachedDataItem::DirtyWhenPersisted { value } => (CachedDataItemKey::DirtyWhenPersisted, CachedDataItemValue::DirtyWhenPersisted { value }),
            CachedDataItem::Child { task, value } => (CachedDataItemKey::Child { task }, CachedDataItemValue::Child { value }),
            CachedDataItem::CellData { cell, value } => (CachedDataItemKey::CellData { cell }, CachedDataItemValue::CellData { value }),
            CachedDataItem::CellTypeMaxIndex { cell_type, value } => (CachedDataItemKey::CellTypeMaxIndex { cell_type }, CachedDataItemValue::CellTypeMaxIndex { value }),
            CachedDataItem::OutputDependency { target, value } => (CachedDataItemKey::OutputDependency { target }, CachedDataItemValue::OutputDependency { value }),
            CachedDataItem::CellDependency { target, value } => (CachedDataItemKey::CellDependency { target }, CachedDataItemValue::CellDependency { value }),
            CachedDataItem::CollectiblesDependency { target, value } => (CachedDataItemKey::CollectiblesDependency { target }, CachedDataItemValue::CollectiblesDependency { value }),
            CachedDataItem::OutputDependent { task, value } => (CachedDataItemKey::OutputDependent { task }, CachedDataItemValue::OutputDependent { value }),
            CachedDataItem::CellDependent { cell, task, value } => (CachedDataItemKey::CellDependent { cell, task }, CachedDataItemValue::CellDependent { value }),
            CachedDataItem::CollectiblesDependent { collectibles_type, task, value } => (CachedDataItemKey::CollectiblesDependent { collectibles_type, task }, CachedDataItemValue::CollectiblesDependent { value }),
            CachedDataItem::AggregationNumber { value } => (CachedDataItemKey::AggregationNumber, CachedDataItemValue::AggregationNumber { value }),
            CachedDataItem::Follower { task, value } => (CachedDataItemKey::Follower { task }, CachedDataItemValue::Follower { value }),
            CachedDataItem::Upper { task, value } => (CachedDataItemKey::Upper { task }, CachedDataItemValue::Upper { value }),
            CachedDataItem::AggregatedDirtyContainer { task, value } => (CachedDataItemKey::AggregatedDirtyContainer { task }, CachedDataItemValue::AggregatedDirtyContainer { value }),
            CachedDataItem::AggregatedCollectible { collectible, value } => (CachedDataItemKey::AggregatedCollectible { collectible }, CachedDataItemValue::AggregatedCollectible { value }),
            CachedDataItem::AggregatedDirtyContainerCount { value } => (CachedDataItemKey::AggregatedDirtyContainerCount, CachedDataItemValue::AggregatedDirtyContainerCount { value }),
            CachedDataItem::AggregateRoot { value } => (CachedDataItemKey::AggregateRoot, CachedDataItemValue::AggregateRoot { value }),
            CachedDataItem::InProgress { value } => (CachedDataItemKey::InProgress, CachedDataItemValue::InProgress { value }),
            CachedDataItem::InProgressCell { cell, value } => (CachedDataItemKey::InProgressCell { cell }, CachedDataItemValue::InProgressCell { value }),
            CachedDataItem::OutdatedCollectible { collectible, value } => (CachedDataItemKey::OutdatedCollectible { collectible }, CachedDataItemValue::OutdatedCollectible { value }),
            CachedDataItem::OutdatedOutputDependency { target, value } => (CachedDataItemKey::OutdatedOutputDependency { target }, CachedDataItemValue::OutdatedOutputDependency { value }),
            CachedDataItem::OutdatedCellDependency { target, value } => (CachedDataItemKey::OutdatedCellDependency { target }, CachedDataItemValue::OutdatedCellDependency { value }),
            CachedDataItem::OutdatedChild { task, value } => (CachedDataItemKey::OutdatedChild { task }, CachedDataItemValue::OutdatedChild { value }),
            CachedDataItem::Error { value } => (CachedDataItemKey::Error, CachedDataItemValue::Error { value }),
        }
    }

    /// Joins a key and a value into a record; `None` where they are of different kinds.
    pub fn from_key_and_value(key: CachedDataItemKey, value: CachedDataItemValue) -> (r: Option<CachedDataItem>)
        ensures
            r == CachedDataItem::join(key, value),
    {
        match (key, value) {
            (CachedDataItemKey::Output, CachedDataItemValue::Output { value }) => Some(CachedDataItem::Output { value }),
            (CachedDataItemKey::Collectible { collectible }, CachedDataItemValue::Collectible { value }) => Some(CachedDataItem::Collectible { collectible, value }),
            (CachedDataItemKey::Dirty, CachedDataItemValue::Dirty { value }) => Some(CachedDataItem::Dirty { value }),
            (CachedDataItemKey::DirtyWhenPersisted, CachedDataItemValue::DirtyWhenPersisted { value }) => Some(CachedDataItem::DirtyWhenPersisted { value }),
            (CachedDataItemKey::Child { task }, CachedDataItemValue::Child { value }) => Some(CachedDataItem::Child { task, value }),
            (CachedDataItemKey::CellData { cell }, CachedDataItemValue::CellData { value }) => Some(CachedDataItem::CellData { cell, value }),
            (CachedDataItemKey::CellTypeMaxIndex { cell_type }, CachedDataItemValue::CellTypeMaxIndex { value }) => Some(CachedDataItem::CellTypeMaxIndex { cell_type, value }),
            (CachedDataItemKey::OutputDependency { target }, CachedDataItemValue::OutputDependency { value }) => Some(CachedDataItem::OutputDependency { target, value }),
            (CachedDataItemKey::CellDependency { target }, CachedDataItemValue::CellDependency { value }) => Some(CachedDataItem::CellDependency { target, value }),
            (CachedDataItemKey::CollectiblesDependency { target }, CachedDataItemValue::CollectiblesDependency { value }) => Some(CachedDataItem::CollectiblesDependency { target, value }),
            (CachedDataItemKey::OutputDependent { task }, CachedDataItemValue::OutputDependent { value }) => Some(CachedDataItem::OutputDependent { task, value }),
            (CachedDataItemKey::CellDependent { cell, task }, CachedDataItemValue::CellDependent { value }) => Some(CachedDataItem::CellDependent { cell, task, value }),
            (CachedDataItemKey::CollectiblesDependent { collectibles_type, task }, CachedDataItemValue::CollectiblesDependent { value }) => Some(CachedDataItem::CollectiblesDependent { collectibles_type, task, value }),
            (CachedDataItemKey::AggregationNumber, CachedDataItemValue::AggregationNumber { value }) => Some(CachedDataItem::AggregationNumber { value }),
            (CachedDataItemKey::Follower { task }, CachedDataItemValue::Follower { value }) => Some(CachedDataItem::Follower { task, value }),
            (CachedDataItemKey::Upper { task }, CachedDataItemValue::Upper { value }) => Some(CachedDataItem::Upper { task, value }),
            (CachedDataItemKey::AggregatedDirtyContainer { task }, CachedDataItemValue::AggregatedDirtyContainer { value }) => Some(CachedDataItem::AggregatedDirtyContainer { task, value }),
            (CachedDataItemKey::AggregatedCollectible { collectible }, CachedDataItemValue::AggregatedCollectible { value }) => Some(CachedDataItem::AggregatedCollectible { collectible, value }),
            (CachedDataItemKey::AggregatedDirtyContainerCount, CachedDataItemValue::AggregatedDirtyContainerCount { value }) => Some(CachedDataItem::AggregatedDirtyContainerCount { value }),
            (CachedDataItemKey::AggregateRoot, CachedDataItemValue::AggregateRoot { value }) => Some(CachedDataItem::AggregateRoot { value }),
            (CachedDataItemKey::InProgress, CachedDataItemValue::InProgress { value }) => Some(CachedDataItem::InProgress { value }),
            (CachedDataItemKey::InProgressCell { cell }, CachedDataItemValue::InProgressCell { value }) => Some(CachedDataItem::InProgressCell { cell, value }),
            (CachedDataItemKey::OutdatedCollectible { collectible }, CachedDataItemValue::OutdatedCollectible { value }) => Some(CachedDataItem::OutdatedCollectible { collectible, value }),
            (CachedDataItemKey::OutdatedOutputDependency { target }, CachedDataItemValue::OutdatedOutputDependency { value }) => Some(CachedDataItem::OutdatedOutputDependency { target, value }),
            (CachedDataItemKey::OutdatedCellDependency { target }, CachedDataItemValue::OutdatedCellDependency { value }) => Some(CachedDataItem::OutdatedCellDependency { target, value }),
            (CachedDataItemKey::OutdatedChild { task }, CachedDataItemValue::OutdatedChild { value }) => Some(CachedDataItem::OutdatedChild { task, value }),
            (CachedDataItemKey::Error, CachedDataItemValue::Error { value }) => Some(CachedDataItem::Error { value }),
            _ => None,
        }
    }

    /// A fresh execution state: the task is scheduled and nobody waits on it yet.
    pub fn new_scheduled(description: String) -> (r: CachedDataItem)
        ensures
            r matches CachedDataItem::InProgress { value: InProgressState::Scheduled { done_event } }
                && done_event.wf() && !done_event.fired && done_event.waiting == 0,
    {
        CachedDataItem::InProgress {
            value: InProgressState::Scheduled { done_event: Event::new(description) },
        }
    }

    /// A fresh execution state together with a first registration on its `done_event`.
    pub fn new_scheduled_with_listener(description: String) -> (r: (CachedDataItem, EventListener))
        ensures
            !r.1.ready,
            r.0 matches CachedDataItem::InProgress { value: InProgressState::Scheduled { done_event } }
                && done_event.wf() && !done_event.fired && done_event.waiting == 1,
    {
        let mut done_event = Event::new(description);
        let listener = done_event.listen();
        (CachedDataItem::InProgress { value: InProgressState::Scheduled { done_event } }, listener)
    }
}

/// A change handed to durable storage: `None` as the value removes the record.
#[derive(Debug)]
pub struct CachedDataUpdate {
    pub task: TaskId,
    pub key: CachedDataItemKey,
    pub value: Option<CachedDataItemValue>,
}

impl CachedDataUpdate {
    /// Durable storage takes the update only where its key and, if present, its value are
    /// both persistent.
    pub open spec fn persistent(&self) -> bool {
        &&& self.key.persistent()
        &&& self.value matches Some(v) ==> v.persistent()
    }

    pub fn is_persistent(&self) -> (r: bool)
        ensures
            r == self.persistent(),
    {
        if !self.key.is_persistent() {
            return false;
        }
        match &self.value {
            Some(v) => v.is_persistent(),
            None => true,
        }
    }
}

/// A record splits into its key and value and joins back into the same record; a key and a
/// value that join make a record with exactly that key and value.
pub proof fn lemma_key_value_round_trip(item: CachedDataItem, key: CachedDataItemKey, value: CachedDataItemValue)
    ensures
        CachedDataItem::join(item.spec_key(), item.spec_value()) == Some(item),
        CachedDataItem::join(key, value) matches Some(joined)
            ==> joined.spec_key() == key && joined.spec_value() == value,
{
}

/// Persistence of a record is decided by its key, except for an output, where it follows the
/// transience of the value. So, for every record but an output, a persistent key comes with a
/// persistent value, and the record is persistent exactly when its key is.
pub proof fn lemma_key_value_persistence_agree(item: CachedDataItem)
    ensures
        !(item is Output) ==> item.spec_value().persistent(),
        !(item is Output) ==> (item.persistent() == item.spec_key().persistent()),
        !(item is Output) && item.spec_key().persistent()
            ==> item.spec_key().persistent() == item.spec_value().persistent(),
        item matches CachedDataItem::Output { value } ==> item.spec_key().persistent()
            && item.persistent() == item.spec_value().persistent()
            && item.persistent() == !value.transient(),
{
}

} // verus!
