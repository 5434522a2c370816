use crate::data::{CachedDataItem, CachedDataItemIndex, CachedDataItemKey};
use crate::ids::TaskId;
use crate::store::TaskStorage;
use vstd::prelude::*;

verus! {

/// A confirmed edge of the task's last execution that is staged when it runs again.
pub open spec fn is_live_edge(key: CachedDataItemKey) -> bool {
    ||| key is OutputDependency
    ||| key is CellDependency
    ||| key is Child
}

/// An edge of an earlier execution that the current one has not confirmed yet.
pub open spec fn is_outdated_edge(key: CachedDataItemKey) -> bool {
    ||| key is OutdatedOutputDependency
    ||| key is OutdatedCellDependency
    ||| key is OutdatedChild
}

/// The outdated form of a live edge.
pub open spec fn outdated_of(key: CachedDataItemKey) -> CachedDataItemKey {
    match key {
        CachedDataItemKey::OutputDependency { target } => CachedDataItemKey::OutdatedOutputDependency { target },
        CachedDataItemKey::CellDependency { target } => CachedDataItemKey::OutdatedCellDependency { target },
        CachedDataItemKey::Child { task } => CachedDataItemKey::OutdatedChild { task },
        _ => key,
    }
}

/// The live form of an outdated edge.
pub open spec fn live_of(key: CachedDataItemKey) -> CachedDataItemKey {
    match key {
        CachedDataItemKey::OutdatedOutputDependency { target } => CachedDataItemKey::OutputDependency { target },
        CachedDataItemKey::OutdatedCellDependency { target } => CachedDataItemKey::CellDependency { target },
        CachedDataItemKey::OutdatedChild { task } => CachedDataItemKey::Child { task },
        _ => key,
    }
}

/// The record of an edge; edges carry no value.
pub open spec fn edge_item(key: CachedDataItemKey) -> CachedDataItem {
    match key {
        CachedDataItemKey::OutputDependency { target } => CachedDataItem::OutputDependency { target, value: () },
        CachedDataItemKey::CellDependency { target } => CachedDataItem::CellDependency { target, value: () },
        CachedDataItemKey::Child { task } => CachedDataItem::Child { task, value: () },
        CachedDataItemKey::OutdatedOutputDependency { target } => CachedDataItem::OutdatedOutputDependency { target, value: () },
        CachedDataItemKey::OutdatedCellDependency { target } => CachedDataItem::OutdatedCellDependency { target, value: () },
        _ => CachedDataItem::OutdatedChild { task: live_of(key)->Child_task, value: () },
    }
}

/// The outdated edges among a task's records.
pub open spec fn outdated_edges(records: Map<CachedDataItemKey, CachedDataItem>) -> Set<CachedDataItemKey> {
    records.dom().filter(|k: CachedDataItemKey| is_outdated_edge(k))
}

/// The records after an edge was confirmed by the running execution: its outdated form is
/// gone and its live form is recorded.
pub open spec fn confirmed(
    records: Map<CachedDataItemKey, CachedDataItem>,
    edge: CachedDataItemKey,
) -> Map<CachedDataItemKey, CachedDataItem> {
    records.remove(outdated_of(edge)).insert(edge, edge_item(edge))
}

/// The records after confirming each edge of `edges` in turn.
pub open spec fn confirmed_all(
    records: Map<CachedDataItemKey, CachedDataItem>,
    edges: Seq<CachedDataItemKey>,
) -> Map<CachedDataItemKey, CachedDataItem>
    decreases edges.len(),
{
    if edges.len() == 0 {
        records
    } else {
        confirmed(confirmed_all(records, edges.drop_last()), edges.last())
    }
}

fn make_edge(key: CachedDataItemKey) -> (r: CachedDataItem)
    requires
        is_live_edge(key) || is_outdated_edge(key),
    ensures
        r == edge_item(key),
        r.spec_key() == key,
{
    match key {
        CachedDataItemKey::OutputDependency { target } => CachedDataItem::OutputDependency { target, value: () },
        CachedDataItemKey::CellDependency { target } => CachedDataItem::CellDependency { target, value: () },
        CachedDataItemKey::Child { task } => CachedDataItem::Child { task, value: () },
        CachedDataItemKey::OutdatedOutputDependency { target } => CachedDataItem::OutdatedOutputDependency { target, value: () },
        CachedDataItemKey::OutdatedCellDependency { target } => CachedDataItem::OutdatedCellDependency { target, value: () },
        CachedDataItemKey::OutdatedChild { task } => CachedDataItem::OutdatedChild { task, value: () },
        _ => CachedDataItem::OutdatedChild { task: TaskId { id: 0, transient: false }, value: () },
    }
}

fn outdated_key(key: CachedDataItemKey) -> (r: CachedDataItemKey)
    ensures
        r == outdated_of(key),
{
    match key {
        CachedDataItemKey::OutputDependency { target } => CachedDataItemKey::OutdatedOutputDependency { target },
        CachedDataItemKey::CellDependency { target } => CachedDataItemKey::OutdatedCellDependency { target },
        CachedDataItemKey::Child { task } => CachedDataItemKey::OutdatedChild { task },
        _ => key,
    }
}

/// Stages one live edge at the start of a re-execution: its live record is replaced by the
/// outdated one. Returns whether the edge was there.
pub fn stage_outdated(storage: &mut TaskStorage, edge: CachedDataItemKey) -> (r: bool)
    requires
        old(storage).wf(),
        is_live_edge(edge),
    ensures
        final(storage).wf(),
        r == old(storage)@.contains_key(edge),
        r ==> final(storage)@ == old(storage)@.remove(edge).insert(outdated_of(edge), edge_item(outdated_of(edge))),
        !r ==> final(storage)@ == old(storage)@,
{
    if storage.remove(&edge).is_some() {
        let outdated = outdated_key(edge);
        storage.insert(make_edge(outdated));
        true
    } else {
        false
    }
}

/// Records an edge that the running execution has used: its outdated form, if staged, is
/// removed, and the live edge is recorded. Returns whether the edge had been staged.
pub fn confirm_edge(storage: &mut TaskStorage, edge: CachedDataItemKey) -> (r: bool)
    requires
        old(storage).wf(),
        is_live_edge(edge),
    ensures
        final(storage).wf(),
        r == old(storage)@.contains_key(outdated_of(edge)),
        final(storage)@ == confirmed(old(storage)@, edge),
{
    let outdated = outdated_key(edge);
    let was_staged = storage.remove(&outdated).is_some();
    storage.insert(make_edge(edge));
    was_staged
}

/// Stages the live edges among `keys`, all keys of one index.
fn stage_keys(storage: &mut TaskStorage, keys: &Vec<CachedDataItemKey>, index: Ghost<CachedDataItemIndex>)
    requires
        old(storage).wf(),
        forall|m: int| 0 <= m < keys@.len() ==> (#[trigger] keys@[m]).spec_index() == Some(index@),
        keys@.no_duplicates(),
    ensures
        final(storage).wf(),
        forall|m: int| 0 <= m < keys@.len() && is_live_edge(#[trigger] keys@[m]) ==> !final(storage)@.contains_key(keys@[m]),
        forall|m: int| 0 <= m < keys@.len() && is_live_edge(#[trigger] keys@[m]) && old(storage)@.contains_key(keys@[m])
            ==> final(storage)@.contains_key(outdated_of(keys@[m])),
        staging_step(old(storage)@, final(storage)@, index@),
{
    let mut i: usize = 0;
    while i < keys.len()
        invariant
            storage.wf(),
            i <= keys@.len(),
            forall|m: int| 0 <= m < keys@.len() ==> (#[trigger] keys@[m]).spec_index() == Some(index@),
            forall|m: int| 0 <= m < i && is_live_edge(#[trigger] keys@[m]) ==> !storage@.contains_key(keys@[m]),
            forall|m: int| 0 <= m < i && is_live_edge(#[trigger] keys@[m]) && old(storage)@.contains_key(keys@[m])
                ==> storage@.contains_key(outdated_of(keys@[m])),
            staging_step(old(storage)@, storage@, index@),
            keys@.no_duplicates(),
            forall|m: int| i <= m < keys@.len() && is_live_edge(#[trigger] keys@[m]) && old(storage)@.contains_key(keys@[m])
                ==> storage@.contains_key(keys@[m]),
        decreases keys@.len() - i,
    {
        let key = keys[i];
        if is_live_edge_key(&key) {
            let ghost before = storage@;
            stage_outdated(storage, key);
            proof {
                assert(staging_step(before, storage@, index@));
                lemma_staging_step_trans(old(storage)@, before, storage@, index@);
                assert forall|m: int| 0 <= m < i + 1 && is_live_edge(#[trigger] keys@[m]) && old(storage)@.contains_key(keys@[m])
                    implies storage@.contains_key(outdated_of(keys@[m])) by {
                    if m < i {
                        let ok = outdated_of(keys@[m]);
                        assert(keys@[m] != key);
                        assert(is_outdated_edge(ok));
                        assert(before.contains_key(ok));
                        assert(storage@.contains_key(ok));
                    }
                }
                assert forall|m: int| i + 1 <= m < keys@.len() && is_live_edge(#[trigger] keys@[m]) && old(storage)@.contains_key(keys@[m])
                    implies storage@.contains_key(keys@[m]) by {
                    assert(keys@[m] != keys@[i as int]);
                }
            }
        }
        i = i + 1;
    }
}

/// One staging pass over the edges of `index`: no live edge appears, no outdated edge goes,
/// an outdated edge that appears comes from its live edge, live edges of other indices and
/// records that are no edge are untouched.
pub open spec fn staging_step(
    before: Map<CachedDataItemKey, CachedDataItem>,
    after: Map<CachedDataItemKey, CachedDataItem>,
    index: CachedDataItemIndex,
) -> bool {
    &&& forall|k: CachedDataItemKey| is_live_edge(k) && #[trigger] after.contains_key(k) ==> before.contains_key(k)
    &&& forall|k: CachedDataItemKey| is_live_edge(k) && k.spec_index() != Some(index) ==>
        (#[trigger] after.contains_key(k) == before.contains_key(k))
    &&& forall|k: CachedDataItemKey| is_outdated_edge(k) && #[trigger] before.contains_key(k) ==> after.contains_key(k)
    &&& forall|k: CachedDataItemKey| is_outdated_edge(k) && #[trigger] after.contains_key(k)
        ==> before.contains_key(k) || before.contains_key(live_of(k))
    &&& forall|k: CachedDataItemKey| !is_live_edge(k) && !is_outdated_edge(k) ==>
        (#[trigger] after.contains_key(k) == before.contains_key(k))
            && (after.contains_key(k) ==> after[k] == before[k])
}

proof fn lemma_staging_step_trans(
    a: Map<CachedDataItemKey, CachedDataItem>,
    b: Map<CachedDataItemKey, CachedDataItem>,
    c: Map<CachedDataItemKey, CachedDataItem>,
    index: CachedDataItemIndex,
)
    requires
        staging_step(a, b, index),
        staging_step(b, c, index),
    ensures
        staging_step(a, c, index),
{
    assert forall|k: CachedDataItemKey| is_outdated_edge(k) && #[trigger] c.contains_key(k)
        implies a.contains_key(k) || a.contains_key(live_of(k)) by {
        if !b.contains_key(k) {
            assert(b.contains_key(live_of(k)));
        }
    }
}

/// Stages every live edge of the task at the start of a re-execution: each dependency and
/// child that was recorded is replaced by its outdated form.
pub fn begin_execution(storage: &mut TaskStorage)
    requires
        old(storage).wf(),
    ensures
        final(storage).wf(),
        forall|k: CachedDataItemKey| is_live_edge(k) ==> !#[trigger] final(storage)@.contains_key(k),
        forall|k: CachedDataItemKey| is_live_edge(k) && old(storage)@.contains_key(k)
            ==> #[trigger] final(storage)@.contains_key(outdated_of(k)),
        forall|k: CachedDataItemKey| is_outdated_edge(k) && #[trigger] old(storage)@.contains_key(k)
            ==> final(storage)@.contains_key(k),
        forall|k: CachedDataItemKey| is_outdated_edge(k) && #[trigger] final(storage)@.contains_key(k)
            ==> old(storage)@.contains_key(k) || old(storage)@.contains_key(live_of(k)),
        forall|k: CachedDataItemKey| !is_live_edge(k) && !is_outdated_edge(k) ==>
            (#[trigger] final(storage)@.contains_key(k) == old(storage)@.contains_key(k))
                && (final(storage)@.contains_key(k) ==> final(storage)@[k] == old(storage)@[k]),
{
    let deps = storage.keys_in_index(CachedDataItemIndex::Dependencies);
    stage_keys(storage, &deps, Ghost(CachedDataItemIndex::Dependencies));
    let ghost mid = storage@;
    let children = storage.keys_in_index(CachedDataItemIndex::Children);
    stage_keys(storage, &children, Ghost(CachedDataItemIndex::Children));
    proof {
        assert forall|k: CachedDataItemKey| is_live_edge(k) implies !#[trigger] storage@.contains_key(k) by {
            if k is Child {
                if mid.contains_key(k) {
                    assert(children@.contains(k));
                    let m = choose|m: int| 0 <= m < children@.len() && children@[m] == k;
                    assert(is_live_edge(children@[m]));
                }
            } else if old(storage)@.contains_key(k) {
                assert(deps@.contains(k));
                let m = choose|m: int| 0 <= m < deps@.len() && deps@[m] == k;
                assert(is_live_edge(deps@[m]));
            }
        }
        assert forall|k: CachedDataItemKey| is_live_edge(k) && old(storage)@.contains_key(k)
            implies #[trigger] storage@.contains_key(outdated_of(k)) by {
            if k is Child {
                assert(mid.contains_key(k));
                assert(children@.contains(k));
                let m = choose|m: int| 0 <= m < children@.len() && children@[m] == k;
                assert(is_live_edge(children@[m]));
            } else {
                assert(deps@.contains(k));
                let m = choose|m: int| 0 <= m < deps@.len() && deps@[m] == k;
                assert(is_live_edge(deps@[m]));
                assert(mid.contains_key(outdated_of(k)));
            }
        }
        assert forall|k: CachedDataItemKey| is_outdated_edge(k) && #[trigger] storage@.contains_key(k)
            implies old(storage)@.contains_key(k) || old(storage)@.contains_key(live_of(k)) by {
            if !mid.contains_key(k) {
                assert(mid.contains_key(live_of(k)));
            }
        }
    }
}

fn is_live_edge_key(key: &CachedDataItemKey) -> (r: bool)
    ensures
        r == is_live_edge(*key),
{
    match key {
        CachedDataItemKey::OutputDependency { .. } => true,
        CachedDataItemKey::CellDependency { .. } => true,
        CachedDataItemKey::Child { .. } => true,
        _ => false,
    }
}

/// Appends the outdated edges among `keys` to `out`.
fn collect_outdated(keys: &Vec<CachedDataItemKey>, out: &mut Vec<CachedDataItemKey>)
    ensures
        forall|k: CachedDataItemKey| #[trigger] final(out)@.contains(k) <==>
            (old(out)@.contains(k) || (keys@.contains(k) && is_outdated_edge(k))),
{
    let ghost start = out@;
    let mut i: usize = 0;
    while i < keys.len()
        invariant
            i <= keys@.len(),
            forall|k: CachedDataItemKey| #[trigger] out@.contains(k) <==>
                (start.contains(k) || (keys@.take(i as int).contains(k) && is_outdated_edge(k))),
        decreases keys@.len() - i,
    {
        let key = keys[i];
        let ghost prefix = keys@.take(i as int);
        let ghost next = keys@.take(i + 1);
        let ghost prev = out@;
        proof {
            assert(next =~= prefix.push(key));
            lemma_push_contains(prefix, key, next);
        }
        if is_outdated_key(&key) {
            out.push(key);
            proof { lemma_push_contains(prev, key, out@); }
        }
        proof {
            assert forall|k: CachedDataItemKey| out@.contains(k) <==>
                (start.contains(k) || (next.contains(k) && is_outdated_edge(k))) by {
                assert(next.contains(k) == (prefix.contains(k) || k == key));
                assert(prev.contains(k) == (start.contains(k) || (prefix.contains(k) && is_outdated_edge(k))));
                if is_outdated_edge(key) {
                    assert(out@.contains(k) == (prev.contains(k) || k == key));
                }
            }
        }
        i = i + 1;
    }
    proof {
        assert(keys@.take(keys@.len() as int) =~= keys@);
    }
}

/// The outdated edges that remain: those of the previous execution that the current one did
/// not confirm, which are to be retracted.
pub fn remaining_outdated(storage: &TaskStorage) -> (r: Vec<CachedDataItemKey>)
    requires
        storage.wf(),
    ensures
        forall|k: CachedDataItemKey| r@.contains(k) <==> outdated_edges(storage@).contains(k),
{
    let deps = storage.keys_in_index(CachedDataItemIndex::Dependencies);
    let children = storage.keys_in_index(CachedDataItemIndex::Children);
    let mut r: Vec<CachedDataItemKey> = Vec::new();
    collect_outdated(&deps, &mut r);
    let ghost r1 = r@;
    collect_outdated(&children, &mut r);
    proof {
        assert forall|k: CachedDataItemKey| r@.contains(k) <==> outdated_edges(storage@).contains(k) by {
            lemma_outdated_edges(storage@, k);
            if r@.contains(k) {
                if r1.contains(k) {
                    assert(deps@.contains(k));
                } else {
                    assert(children@.contains(k));
                }
                assert(storage@.contains_key(k));
            }
            if outdated_edges(storage@).contains(k) {
                assert(storage@.contains_key(k));
                if k is OutdatedChild {
                    assert(k.spec_index() == Some(CachedDataItemIndex::Children));
                    assert(children@.contains(k));
                } else {
                    assert(k.spec_index() == Some(CachedDataItemIndex::Dependencies));
                    assert(deps@.contains(k));
                }
            }
        }
    }
    r
}

/// Confirming edges only takes their outdated forms away: an outdated edge remains exactly
/// when it was there and its live form was not among the confirmed edges.
pub proof fn lemma_confirmed_all(records: Map<CachedDataItemKey, CachedDataItem>, edges: Seq<CachedDataItemKey>)
    requires
        forall|i: int| 0 <= i < edges.len() ==> is_live_edge(#[trigger] edges[i]),
    ensures
        forall|k: CachedDataItemKey| is_outdated_edge(k) ==>
            (#[trigger] confirmed_all(records, edges).contains_key(k)
                == (records.contains_key(k) && !edges.contains(live_of(k)))),
    decreases edges.len(),
{
    if edges.len() > 0 {
        let rest = edges.drop_last();
        let e = edges.last();
        assert forall|i: int| 0 <= i < rest.len() implies is_live_edge(#[trigger] rest[i]) by {
            assert(rest[i] == edges[i]);
        }
        lemma_confirmed_all(records, rest);
        assert(is_live_edge(edges[edges.len() - 1]));
        assert forall|k: CachedDataItemKey| is_outdated_edge(k) implies
            (#[trigger] confirmed_all(records, edges).contains_key(k)
                == (records.contains_key(k) && !edges.contains(live_of(k)))) by {
            assert(edges == rest.push(e));
            lemma_push_contains(rest, e, edges);
            assert(confirmed_all(records, rest).contains_key(k)
                == (records.contains_key(k) && !rest.contains(live_of(k))));
        }
    }
}

/// After a re-execution that starts from records with no outdated edge, stages them, and then
/// confirms `edges`, the outdated edges that remain are exactly the edges recorded before the
/// execution that it did not confirm.
pub proof fn lemma_outdated_staging(
    before: Map<CachedDataItemKey, CachedDataItem>,
    staged: Map<CachedDataItemKey, CachedDataItem>,
    edges: Seq<CachedDataItemKey>,
)
    requires
        forall|k: CachedDataItemKey| is_outdated_edge(k) ==> !#[trigger] before.contains_key(k),
        forall|k: CachedDataItemKey| is_live_edge(k) && before.contains_key(k)
            ==> #[trigger] staged.contains_key(outdated_of(k)),
        forall|k: CachedDataItemKey| is_outdated_edge(k) && #[trigger] staged.contains_key(k)
            ==> before.contains_key(k) || before.contains_key(live_of(k)),
        forall|i: int| 0 <= i < edges.len() ==> is_live_edge(#[trigger] edges[i]),
    ensures
        forall|k: CachedDataItemKey| #[trigger] outdated_edges(confirmed_all(staged, edges)).contains(k) <==>
            (is_outdated_edge(k) && before.contains_key(live_of(k)) && !edges.contains(live_of(k))),
{
    lemma_confirmed_all(staged, edges);
    assert forall|k: CachedDataItemKey| #[trigger] outdated_edges(confirmed_all(staged, edges)).contains(k) <==>
        (is_outdated_edge(k) && before.contains_key(live_of(k)) && !edges.contains(live_of(k))) by {
        lemma_outdated_edges(confirmed_all(staged, edges), k);
        if is_outdated_edge(k) {
            assert(is_live_edge(live_of(k)));
            assert(outdated_of(live_of(k)) == k);
        }
    }
}

/// A key is among the outdated edges exactly when it is recorded and of an outdated kind.
pub proof fn lemma_outdated_edges(records: Map<CachedDataItemKey, CachedDataItem>, key: CachedDataItemKey)
    ensures
        outdated_edges(records).contains(key) == (records.contains_key(key) && is_outdated_edge(key)),
{
}

proof fn lemma_push_contains(prev: Seq<CachedDataItemKey>, key: CachedDataItemKey, next: Seq<CachedDataItemKey>)
    requires
        next == prev.push(key),
    ensures
        forall|k: CachedDataItemKey| next.contains(k) <==> (prev.contains(k) || k == key),
{
    assert forall|k: CachedDataItemKey| next.contains(k) <==> (prev.contains(k) || k == key) by {
        if prev.contains(k) {
            let m = choose|m: int| 0 <= m < prev.len() && prev[m] == k;
            assert(next[m] == k);
        }
        if k == key {
            assert(next[prev.len() as int] == k);
        }
        if next.contains(k) && k != key {
            let m = choose|m: int| 0 <= m < next.len() && next[m] == k;
            assert(prev[m] == k);
        }
    }
}

fn is_outdated_key(key: &CachedDataItemKey) -> (r: bool)
    ensures
        r == is_outdated_edge(*key),
{
    match key {
        CachedDataItemKey::OutdatedOutputDependency { .. } => true,
        CachedDataItemKey::OutdatedCellDependency { .. } => true,
        CachedDataItemKey::OutdatedChild { .. } => true,
        _ => false,
    }
}

} // verus!
