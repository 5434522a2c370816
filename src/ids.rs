use vstd::prelude::*;

verus! {

/// Identifies a task. A transient task's results are never written to durable storage.
#[derive(Debug, Clone, Copy, PartialEq, Eq, Structural, Hash)]
pub struct TaskId {
    pub id: u32,
    pub transient: bool,
}

impl TaskId {
    pub fn new(id: u32, transient: bool) -> (r: TaskId)
        ensures
            r.id == id,
            r.transient == transient,
    {
        TaskId { id, transient }
    }

    pub fn is_transient(&self) -> (r: bool)
        ensures
            r == self.transient,
    {
        self.transient
    }
}

/// Identifies a value type, such as the type of a cell or of a collectible.
#[derive(Debug, Clone, Copy, PartialEq, Eq, Structural, Hash)]
pub struct ValueTypeId {
    pub id: u32,
}

/// A cell of a task: the value type it holds and its index among the cells of that type.
#[derive(Debug, Clone, Copy, PartialEq, Eq, Structural, Hash)]
pub struct CellId {
    pub type_id: ValueTypeId,
    pub index: u32,
}

/// An opaque result value held in a cell.
#[derive(Debug, Clone)]
pub struct SharedReference {
    pub bytes: Vec<u8>,
}

/// A captured failure of a task's last execution.
#[derive(Debug, Clone)]
pub struct SharedError {
    pub message: String,
}

} // verus!
