use crate::data::{CachedDataItem, CachedDataItemKey, CellRef};
use crate::execution::{confirm_edge, confirmed};
use crate::ids::TaskId;
use crate::store::TaskStorage;
use vstd::prelude::*;

verus! {

/// The reader holds the dependency on `target`, confirmed or still outdated, exactly when the
/// owner of the cell holds the reverse edge to the reader.
pub open spec fn cell_edge_consistent(
    reader: Map<CachedDataItemKey, CachedDataItem>,
    reader_id: TaskId,
    owner: Map<CachedDataItemKey, CachedDataItem>,
    target: CellRef,
) -> bool {
    (reader.contains_key(CachedDataItemKey::CellDependency { target })
        || reader.contains_key(CachedDataItemKey::OutdatedCellDependency { target }))
        == owner.contains_key(CachedDataItemKey::CellDependent { cell: target.cell, task: reader_id })
}

/// The reader holds the dependency on the output of `target`, confirmed or still outdated,
/// exactly when `target` holds the reverse edge to the reader.
pub open spec fn output_edge_consistent(
    reader: Map<CachedDataItemKey, CachedDataItem>,
    reader_id: TaskId,
    target_records: Map<CachedDataItemKey, CachedDataItem>,
    target: TaskId,
) -> bool {
    (reader.contains_key(CachedDataItemKey::OutputDependency { target })
        || reader.contains_key(CachedDataItemKey::OutdatedOutputDependency { target }))
        == target_records.contains_key(CachedDataItemKey::OutputDependent { task: reader_id })
}

/// Records that the running `reader` read `target`: the dependency is confirmed on the reader
/// and the reverse edge is recorded on the cell's owner.
pub fn record_cell_dependency(
    reader: &mut TaskStorage,
    reader_id: TaskId,
    owner: &mut TaskStorage,
    target: CellRef,
)
    requires
        old(reader).wf(),
        old(owner).wf(),
    ensures
        final(reader).wf(),
        final(owner).wf(),
        final(reader)@ == confirmed(old(reader)@, CachedDataItemKey::CellDependency { target }),
        final(owner)@ == old(owner)@.insert(
            CachedDataItemKey::CellDependent { cell: target.cell, task: reader_id },
            CachedDataItem::CellDependent { cell: target.cell, task: reader_id, value: () },
        ),
        cell_edge_consistent(final(reader)@, reader_id, final(owner)@, target),
{
    confirm_edge(reader, CachedDataItemKey::CellDependency { target });
    owner.insert(CachedDataItem::CellDependent { cell: target.cell, task: reader_id, value: () });
}

/// Retracts a cell dependency that the reader's last execution did not confirm: the outdated
/// edge leaves the reader and, unless the reader holds the confirmed edge, the reverse edge
/// leaves the owner. Returns whether the outdated edge was there.
pub fn retract_cell_dependency(
    reader: &mut TaskStorage,
    reader_id: TaskId,
    owner: &mut TaskStorage,
    target: CellRef,
) -> (r: bool)
    requires
        old(reader).wf(),
        old(owner).wf(),
    ensures
        final(reader).wf(),
        final(owner).wf(),
        r == old(reader)@.contains_key(CachedDataItemKey::OutdatedCellDependency { target }),
        final(reader)@ == old(reader)@.remove(CachedDataItemKey::OutdatedCellDependency { target }),
        old(reader)@.contains_key(CachedDataItemKey::CellDependency { target }) ==> final(owner)@ == old(owner)@,
        !old(reader)@.contains_key(CachedDataItemKey::CellDependency { target }) ==> final(owner)@
            == old(owner)@.remove(CachedDataItemKey::CellDependent { cell: target.cell, task: reader_id }),
        old(reader)@.contains_key(CachedDataItemKey::CellDependency { target })
            && cell_edge_consistent(old(reader)@, reader_id, old(owner)@, target)
            ==> cell_edge_consistent(final(reader)@, reader_id, final(owner)@, target),
        !old(reader)@.contains_key(CachedDataItemKey::CellDependency { target })
            ==> cell_edge_consistent(final(reader)@, reader_id, final(owner)@, target),
{
    let was_outdated = reader.remove(&CachedDataItemKey::OutdatedCellDependency { target }).is_some();
    if !reader.contains_key(&CachedDataItemKey::CellDependency { target }) {
        owner.remove(&CachedDataItemKey::CellDependent { cell: target.cell, task: reader_id });
    }
    was_outdated
}

/// Records that the running `reader` read the output of `target`, on both sides.
pub fn record_output_dependency(
    reader: &mut TaskStorage,
    reader_id: TaskId,
    target_records: &mut TaskStorage,
    target: TaskId,
)
    requires
        old(reader).wf(),
        old(target_records).wf(),
    ensures
        final(reader).wf(),
        final(target_records).wf(),
        final(reader)@ == confirmed(old(reader)@, CachedDataItemKey::OutputDependency { target }),
        final(target_records)@ == old(target_records)@.insert(
            CachedDataItemKey::OutputDependent { task: reader_id },
            CachedDataItem::OutputDependent { task: reader_id, value: () },
        ),
        output_edge_consistent(final(reader)@, reader_id, final(target_records)@, target),
{
    confirm_edge(reader, CachedDataItemKey::OutputDependency { target });
    target_records.insert(CachedDataItem::OutputDependent { task: reader_id, value: () });
}

/// Retracts an output dependency that the reader's last execution did not confirm, on both
/// sides. Returns whether the outdated edge was there.
pub fn retract_output_dependency(
    reader: &mut TaskStorage,
    reader_id: TaskId,
    target_records: &mut TaskStorage,
    target: TaskId,
) -> (r: bool)
    requires
        old(reader).wf(),
        old(target_records).wf(),
    ensures
        final(reader).wf(),
        final(target_records).wf(),
        r == old(reader)@.contains_key(CachedDataItemKey::OutdatedOutputDependency { target }),
        final(reader)@ == old(reader)@.remove(CachedDataItemKey::OutdatedOutputDependency { target }),
        old(reader)@.contains_key(CachedDataItemKey::OutputDependency { target }) ==> final(target_records)@ == old(target_records)@,
        !old(reader)@.contains_key(CachedDataItemKey::OutputDependency { target }) ==> final(target_records)@
            == old(target_records)@.remove(CachedDataItemKey::OutputDependent { task: reader_id }),
        old(reader)@.contains_key(CachedDataItemKey::OutputDependency { target })
            && output_edge_consistent(old(reader)@, reader_id, old(target_records)@, target)
            ==> output_edge_consistent(final(reader)@, reader_id, final(target_records)@, target),
        !old(reader)@.contains_key(CachedDataItemKey::OutputDependency { target })
            ==> output_edge_consistent(final(reader)@, reader_id, final(target_records)@, target),
{
    let was_outdated = reader.remove(&CachedDataItemKey::OutdatedOutputDependency { target }).is_some();
    if !reader.contains_key(&CachedDataItemKey::OutputDependency { target }) {
        target_records.remove(&CachedDataItemKey::OutputDependent { task: reader_id });
    }
    was_outdated
}

} // verus!
