use turbo_tasks_backend::data::{CachedDataItemKey, CellRef};
use turbo_tasks_backend::dependencies::{
    record_cell_dependency, record_output_dependency, retract_cell_dependency,
    retract_output_dependency,
};
use turbo_tasks_backend::execution::{begin_execution, remaining_outdated};
use turbo_tasks_backend::ids::{CellId, TaskId, ValueTypeId};
use turbo_tasks_backend::invalidation::cell_dependents;
use turbo_tasks_backend::store::TaskStorage;

fn task(id: u32) -> TaskId {
    TaskId::new(id, false)
}

#[test]
fn dependency_is_recorded_on_both_sides() {
    let (a, b) = (task(1), task(2));
    let target = CellRef { task: a, cell: CellId { type_id: ValueTypeId { id: 1 }, index: 0 } };
    let mut reader = TaskStorage::new();
    let mut owner = TaskStorage::new();
    record_cell_dependency(&mut reader, b, &mut owner, target);
    assert!(reader.contains_key(&CachedDataItemKey::CellDependency { target }));
    assert_eq!(cell_dependents(&owner, target.cell), vec![b]);
}

#[test]
fn unconfirmed_dependency_is_retracted_on_both_sides() {
    let (a, b) = (task(1), task(2));
    let target = CellRef { task: a, cell: CellId { type_id: ValueTypeId { id: 1 }, index: 0 } };
    let mut reader = TaskStorage::new();
    let mut owner = TaskStorage::new();
    let mut producer = TaskStorage::new();
    record_cell_dependency(&mut reader, b, &mut owner, target);
    record_output_dependency(&mut reader, b, &mut producer, task(3));
    begin_execution(&mut reader);
    record_output_dependency(&mut reader, b, &mut producer, task(3));
    let remaining = remaining_outdated(&reader);
    assert_eq!(remaining, vec![CachedDataItemKey::OutdatedCellDependency { target }]);
    assert!(retract_cell_dependency(&mut reader, b, &mut owner, target));
    assert!(!retract_cell_dependency(&mut reader, b, &mut owner, target));
    assert!(cell_dependents(&owner, target.cell).is_empty());
    assert!(remaining_outdated(&reader).is_empty());
    assert!(!retract_output_dependency(&mut reader, b, &mut producer, task(3)));
    assert!(producer.contains_key(&CachedDataItemKey::OutputDependent { task: b }));
}

#[test]
fn retracting_an_output_dependency_drops_the_reverse_edge() {
    let (reader_id, target) = (task(5), task(6));
    let mut reader = TaskStorage::new();
    let mut target_records = TaskStorage::new();
    record_output_dependency(&mut reader, reader_id, &mut target_records, target);
    begin_execution(&mut reader);
    assert!(retract_output_dependency(&mut reader, reader_id, &mut target_records, target));
    assert!(!target_records.contains_key(&CachedDataItemKey::OutputDependent { task: reader_id }));
    assert_eq!(reader.len(), 0);
}
