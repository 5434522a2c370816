use crate::data::{CachedDataItem, CachedDataItemKey};
use crate::ids::TaskId;
use crate::store::TaskStorage;
use vstd::prelude::*;

verus! {

#[derive(Debug, Clone, Copy, PartialEq, Eq, Structural)]
pub enum AggregationError {
    /// The new count does not fit in an `i32`; nothing was changed.
    Overflow,
}

/// The kinds of record whose value is a signed count.
pub open spec fn is_counted(key: CachedDataItemKey) -> bool {
    ||| key is Follower
    ||| key is Upper
    ||| key is AggregatedDirtyContainer
    ||| key is AggregatedCollectible
    ||| key is AggregatedDirtyContainerCount
}

/// The count a record holds; any other record counts zero.
pub open spec fn item_count(item: CachedDataItem) -> int {
    match item {
        CachedDataItem::Follower { value, .. } => value as int,
        CachedDataItem::Upper { value, .. } => value as int,
        CachedDataItem::AggregatedDirtyContainer { value, .. } => value as int,
        CachedDataItem::AggregatedCollectible { value, .. } => value as int,
        CachedDataItem::AggregatedDirtyContainerCount { value } => value as int,
        _ => 0,
    }
}

/// The count stored under `key`; an absent record counts zero.
pub open spec fn count_of(records: Map<CachedDataItemKey, CachedDataItem>, key: CachedDataItemKey) -> int {
    if records.contains_key(key) {
        item_count(records[key])
    } else {
        0
    }
}

/// The record of a counted kind under `key` that holds `value`.
pub open spec fn counted_item(key: CachedDataItemKey, value: i32) -> CachedDataItem {
    match key {
        CachedDataItemKey::Follower { task } => CachedDataItem::Follower { task, value },
        CachedDataItemKey::Upper { task } => CachedDataItem::Upper { task, value },
        CachedDataItemKey::AggregatedDirtyContainer { task } => CachedDataItem::AggregatedDirtyContainer { task, value },
        CachedDataItemKey::AggregatedCollectible { collectible } => CachedDataItem::AggregatedCollectible { collectible, value },
        _ => CachedDataItem::AggregatedDirtyContainerCount { value },
    }
}

/// The records after the count under `key` became `value`: a zero count is no record.
pub open spec fn with_count(
    records: Map<CachedDataItemKey, CachedDataItem>,
    key: CachedDataItemKey,
    value: i32,
) -> Map<CachedDataItemKey, CachedDataItem> {
    if value == 0 {
        records.remove(key)
    } else {
        records.insert(key, counted_item(key, value))
    }
}

fn make_counted(key: CachedDataItemKey, value: i32) -> (r: CachedDataItem)
    requires
        is_counted(key),
    ensures
        r == counted_item(key, value),
        r.spec_key() == key,
{
    match key {
        CachedDataItemKey::Follower { task } => CachedDataItem::Follower { task, value },
        CachedDataItemKey::Upper { task } => CachedDataItem::Upper { task, value },
        CachedDataItemKey::AggregatedDirtyContainer { task } => CachedDataItem::AggregatedDirtyContainer { task, value },
        CachedDataItemKey::AggregatedCollectible { collectible } => CachedDataItem::AggregatedCollectible { collectible, value },
        _ => CachedDataItem::AggregatedDirtyContainerCount { value },
    }
}

/// The count stored under a counted key.
pub fn get_count(storage: &TaskStorage, key: &CachedDataItemKey) -> (r: i32)
    requires
        storage.wf(),
        is_counted(*key),
    ensures
        r as int == count_of(storage@, *key),
{
    proof {
        if storage@.contains_key(*key) {
            storage.lemma_record_key(*key);
        }
    }
    match storage.get(key) {
        Some(CachedDataItem::Follower { value, .. }) => *value,
        Some(CachedDataItem::Upper { value, .. }) => *value,
        Some(CachedDataItem::AggregatedDirtyContainer { value, .. }) => *value,
        Some(CachedDataItem::AggregatedCollectible { value, .. }) => *value,
        Some(CachedDataItem::AggregatedDirtyContainerCount { value }) => *value,
        _ => 0,
    }
}

/// The sum of a count and a delta, where it fits in an `i32`.
fn add_delta(count: i32, delta: i32) -> (r: Option<i32>)
    ensures
        r matches Some(v) ==> v == count + delta,
        r is None <==> !(i32::MIN <= count + delta <= i32::MAX),
{
    let sum: i64 = count as i64 + delta as i64;
    if sum < i32::MIN as i64 || sum > i32::MAX as i64 {
        None
    } else {
        Some(sum as i32)
    }
}

/// Writes a count under a counted key, removing the record where the count is zero.
fn set_count(storage: &mut TaskStorage, key: CachedDataItemKey, value: i32)
    requires
        old(storage).wf(),
        is_counted(key),
    ensures
        final(storage).wf(),
        final(storage)@ == with_count(old(storage)@, key, value),
{
    if value == 0 {
        storage.remove(&key);
    } else {
        storage.insert(make_counted(key, value));
    }
}

/// Adds a signed delta to the count under a counted key and returns the new count. A count
/// that reaches zero leaves no record behind. Where the new count does not fit, nothing changes.
pub fn update_count(storage: &mut TaskStorage, key: CachedDataItemKey, delta: i32) -> (r: Result<i32, AggregationError>)
    requires
        old(storage).wf(),
        is_counted(key),
    ensures
        final(storage).wf(),
        i32::MIN <= count_of(old(storage)@, key) + delta <= i32::MAX ==> (r matches Ok(v)
            && v == count_of(old(storage)@, key) + delta
            && final(storage)@ == with_count(old(storage)@, key, v)),
        !(i32::MIN <= count_of(old(storage)@, key) + delta <= i32::MAX) ==>
            r == Err::<i32, AggregationError>(AggregationError::Overflow) && final(storage)@ == old(storage)@,
{
    let current = get_count(storage, &key);
    match add_delta(current, delta) {
        Some(v) => {
            set_count(storage, key, v);
            Ok(v)
        },
        None => Err(AggregationError::Overflow),
    }
}

/// Changes the edge between an aggregator and one of its followers by a signed delta, on both
/// sides: `Follower` in the aggregator's records and `Upper` in the follower's. Either both
/// counts change or, where one would not fit, neither does; so where the two counts agreed
/// before, they agree after.
pub fn apply_follower_delta(
    aggregator: &mut TaskStorage,
    aggregator_id: TaskId,
    follower: &mut TaskStorage,
    follower_id: TaskId,
    delta: i32,
) -> (r: Result<(), AggregationError>)
    requires
        old(aggregator).wf(),
        old(follower).wf(),
    ensures
        final(aggregator).wf(),
        final(follower).wf(),
        ({
            let fk = CachedDataItemKey::Follower { task: follower_id };
            let uk = CachedDataItemKey::Upper { task: aggregator_id };
            let f_new = count_of(old(aggregator)@, fk) + delta;
            let u_new = count_of(old(follower)@, uk) + delta;
            let fits = i32::MIN <= f_new <= i32::MAX && i32::MIN <= u_new <= i32::MAX;
            &&& fits ==> r is Ok
                && final(aggregator)@ == with_count(old(aggregator)@, fk, f_new as i32)
                && final(follower)@ == with_count(old(follower)@, uk, u_new as i32)
            &&& !fits ==> r == Err::<(), AggregationError>(AggregationError::Overflow)
                && final(aggregator)@ == old(aggregator)@ && final(follower)@ == old(follower)@
            &&& count_of(old(aggregator)@, fk) == count_of(old(follower)@, uk)
                ==> count_of(final(aggregator)@, fk) == count_of(final(follower)@, uk)
        }),
{
    let fk = CachedDataItemKey::Follower { task: follower_id };
    let uk = CachedDataItemKey::Upper { task: aggregator_id };
    let f_old = get_count(aggregator, &fk);
    let u_old = get_count(follower, &uk);
    match (add_delta(f_old, delta), add_delta(u_old, delta)) {
        (Some(f_new), Some(u_new)) => {
            set_count(aggregator, fk, f_new);
            set_count(follower, uk, u_new);
            proof {
                lemma_count_after(old(aggregator)@, fk, f_new);
                lemma_count_after(old(follower)@, uk, u_new);
            }
            Ok(())
        },
        _ => Err(AggregationError::Overflow),
    }
}

/// After a count is written, the key holds exactly that count.
pub proof fn lemma_count_after(records: Map<CachedDataItemKey, CachedDataItem>, key: CachedDataItemKey, value: i32)
    requires
        is_counted(key),
    ensures
        count_of(with_count(records, key, value), key) == value,
{
}

/// Changes by a signed delta how many dirty containers an aggregator sees below it through
/// `task`. The aggregator's `AggregatedDirtyContainerCount` rises by one when that count turns
/// positive and falls by one when it stops being positive. Where a count would not fit,
/// nothing changes.
pub fn propagate_dirty_container(aggregator: &mut TaskStorage, task: TaskId, delta: i32) -> (r: Result<(), AggregationError>)
    requires
        old(aggregator).wf(),
    ensures
        final(aggregator).wf(),
        ({
            let ck = CachedDataItemKey::AggregatedDirtyContainer { task };
            let sk = CachedDataItemKey::AggregatedDirtyContainerCount;
            let before = count_of(old(aggregator)@, ck);
            let after = before + delta;
            let step: int = if before <= 0 && after > 0 { 1 } else if before > 0 && after <= 0 { -1 } else { 0 };
            let total = count_of(old(aggregator)@, sk) + step;
            let fits = i32::MIN <= after <= i32::MAX && i32::MIN <= total <= i32::MAX;
            &&& fits ==> r is Ok
                && final(aggregator)@ == with_count(with_count(old(aggregator)@, ck, after as i32), sk, total as i32)
                && count_of(final(aggregator)@, ck) == after
                && count_of(final(aggregator)@, sk) == total
            &&& !fits ==> r == Err::<(), AggregationError>(AggregationError::Overflow)
                && final(aggregator)@ == old(aggregator)@
        }),
{
    let ck = CachedDataItemKey::AggregatedDirtyContainer { task };
    let sk = CachedDataItemKey::AggregatedDirtyContainerCount;
    let before = get_count(aggregator, &ck);
    let after = match add_delta(before, delta) {
        Some(v) => v,
        None => return Err(AggregationError::Overflow),
    };
    let step: i32 = if before <= 0 && after > 0 {
        1
    } else if before > 0 && after <= 0 {
        -1
    } else {
        0
    };
    let total_before = get_count(aggregator, &sk);
    let total = match add_delta(total_before, step) {
        Some(v) => v,
        None => return Err(AggregationError::Overflow),
    };
    set_count(aggregator, ck, after);
    let ghost mid = aggregator@;
    set_count(aggregator, sk, total);
    proof {
        assert(count_of(mid, sk) == count_of(old(aggregator)@, sk));
        lemma_count_after(mid, sk, total);
        lemma_count_after(old(aggregator)@, ck, after);
        assert(count_of(aggregator@, ck) == count_of(mid, ck));
    }
    Ok(())
}

} // verus!
