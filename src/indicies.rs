#![allow(non_upper_case_globals)]
use crate::data::CachedDataItemIndex;
use vstd::prelude::*;

verus! {

// The index bucket of each indexed record kind, named after the kind.
pub const Child: CachedDataItemIndex = CachedDataItemIndex::Children;
pub const OutdatedChild: CachedDataItemIndex = CachedDataItemIndex::Children;
pub const Follower: CachedDataItemIndex = CachedDataItemIndex::Follower;
pub const Upper: CachedDataItemIndex = CachedDataItemIndex::Upper;
pub const AggregatedDirtyContainer: CachedDataItemIndex = CachedDataItemIndex::AggregatedDirtyContainer;
pub const CellData: CachedDataItemIndex = CachedDataItemIndex::CellData;
pub const CellTypeMaxIndex: CachedDataItemIndex = CachedDataItemIndex::CellTypeMaxIndex;
pub const CellDependent: CachedDataItemIndex = CachedDataItemIndex::CellDependent;
pub const OutputDependent: CachedDataItemIndex = CachedDataItemIndex::OutputDependent;
pub const OutputDependency: CachedDataItemIndex = CachedDataItemIndex::Dependencies;
pub const CellDependency: CachedDataItemIndex = CachedDataItemIndex::Dependencies;
pub const OutdatedOutputDependency: CachedDataItemIndex = CachedDataItemIndex::Dependencies;
pub const OutdatedCellDependency: CachedDataItemIndex = CachedDataItemIndex::Dependencies;

} // verus!
