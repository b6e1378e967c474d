//! The abstract model of the registry: view types for the records, the owner
//! index and the whole state, the well-formedness predicate tying them
//! together, and the transition functions that the executable operations are
//! proved to refine.

use vstd::prelude::*;

use crate::errors::Error;
use crate::state::{Identity, Timestamp};

verus! {

/// Abstract value of one workflow record.
#[verifier::ext_equal]
pub struct WorkflowView {
    pub owner: Identity,
    pub name: Seq<char>,
    pub steps: Seq<Seq<char>>,
    pub created_at: Timestamp,
    pub last_executed: Timestamp,
    pub is_active: bool,
}

/// Abstract value of one owner-index entry: an owner and the identifiers it
/// created, in ascending order.
#[verifier::ext_equal]
pub struct OwnerEntryView {
    pub owner: Identity,
    pub ids: Seq<u64>,
}

/// Abstract value of the whole registry. The record at index `i` carries the
/// identifier `i + 1`; the counter of assigned identifiers is `records.len()`.
#[verifier::ext_equal]
pub struct RegistryView {
    pub records: Seq<WorkflowView>,
    pub index: Seq<OwnerEntryView>,
}

/// The registry with no record and no owner-index entry.
pub open spec fn empty_registry() -> RegistryView {
    RegistryView { records: Seq::empty(), index: Seq::empty() }
}

/// The timestamp that `last_executed` carries until the first execution.
pub open spec fn epoch() -> Timestamp {
    Timestamp { micros: 0 }
}

/// An identifier is valid when it lies in `[1, counter]`.
pub open spec fn valid_id(v: RegistryView, id: u64) -> bool {
    1 <= id && id <= v.records.len()
}

/// The record assigned the identifier `id`.
pub open spec fn record_of(v: RegistryView, id: u64) -> WorkflowView {
    v.records[id - 1]
}

/// `id` is listed under owner `o` in the owner index.
pub open spec fn listed(v: RegistryView, o: Identity, id: u64) -> bool {
    exists|j: int|
        0 <= j < v.index.len() && v.index[j].owner == o && v.index[j].ids.contains(id)
}

/// The owner `o` has an entry in the owner index (created lazily by the first
/// `Create` of that owner).
pub open spec fn has_owner_entry(v: RegistryView, o: Identity) -> bool {
    exists|j: int| 0 <= j < v.index.len() && v.index[j].owner == o
}

/// The position of owner `o`'s entry in the owner index. Meaningful only when
/// `has_owner_entry(v, o)` holds; under `wf` it is unique.
pub open spec fn owner_slot(v: RegistryView, o: Identity) -> int {
    choose|j: int| 0 <= j < v.index.len() && v.index[j].owner == o
}

/// The identifiers listed under owner `o`, in ascending order.
pub open spec fn owner_ids(v: RegistryView, o: Identity) -> Seq<u64> {
    v.index[owner_slot(v, o)].ids
}

/// Every identifier listed in the entry at `j` is valid, is owned by the
/// entry's owner, and the listing is strictly ascending.
pub open spec fn entry_wf(v: RegistryView, j: int) -> bool {
    let e = v.index[j];
    &&& forall|k: int|
        0 <= k < e.ids.len() ==> valid_id(v, #[trigger] e.ids[k]) && record_of(v, e.ids[k]).owner
            == e.owner
    &&& forall|k1: int, k2: int|
        0 <= k1 < k2 < e.ids.len() ==> e.ids[k1] < e.ids[k2]
}

/// No owner appears twice in the owner index.
pub open spec fn owners_unique(v: RegistryView) -> bool {
    forall|j1: int, j2: int|
        0 <= j1 < j2 < v.index.len() ==> v.index[j1].owner != v.index[j2].owner
}

/// The record at index `i` is listed under its own owner.
pub open spec fn record_listed(v: RegistryView, i: int) -> bool {
    listed(v, v.records[i].owner, (i + 1) as u64)
}

/// Well-formedness of the registry: identifiers fit in the counter's width,
/// every index entry speaks only of valid records of its own owner in
/// ascending order, owners are unique, and every record is listed under its
/// owner.
pub open spec fn wf(v: RegistryView) -> bool {
    &&& v.records.len() <= u64::MAX
    &&& forall|j: int| 0 <= j < v.index.len() ==> #[trigger] entry_wf(v, j)
    &&& owners_unique(v)
    &&& forall|i: int| 0 <= i < v.records.len() ==> #[trigger] record_listed(v, i)
}

/// The identifier that the next `Create` assigns: one past the counter.
pub open spec fn create_id(v: RegistryView) -> u64 {
    (v.records.len() + 1) as u64
}

/// The record that `Create` constructs: owned by the caller, created now,
/// never executed, active.
pub open spec fn new_record(
    caller: Identity,
    now: Timestamp,
    name: Seq<char>,
    steps: Seq<Seq<char>>,
) -> WorkflowView {
    WorkflowView {
        owner: caller,
        name: name,
        steps: steps,
        created_at: now,
        last_executed: epoch(),
        is_active: true,
    }
}

/// The owner index after `Create` lists `id` for `caller`: the identifier is
/// appended to the caller's entry, or a fresh entry is made on the caller's
/// first creation.
pub open spec fn index_after_create(v: RegistryView, caller: Identity, id: u64) -> Seq<
    OwnerEntryView,
> {
    if has_owner_entry(v, caller) {
        let j = owner_slot(v, caller);
        v.index.update(j, OwnerEntryView { owner: caller, ids: v.index[j].ids.push(id) })
    } else {
        v.index.push(OwnerEntryView { owner: caller, ids: seq![id] })
    }
}

/// The state after a `Create` by `caller` at time `now`.
pub open spec fn create_trans(
    v: RegistryView,
    caller: Identity,
    now: Timestamp,
    name: Seq<char>,
    steps: Seq<Seq<char>>,
) -> RegistryView {
    RegistryView {
        records: v.records.push(new_record(caller, now, name, steps)),
        index: index_after_create(v, caller, create_id(v)),
    }
}

/// The first failing check of `Execute`, or `None` when it succeeds: the
/// identifier must be in range, the record active, and the caller its owner,
/// in that order.
pub open spec fn execute_err(v: RegistryView, caller: Identity, id: u64) -> Option<Error> {
    if !valid_id(v, id) {
        Some(Error::InvalidWorkflowId)
    } else if !record_of(v, id).is_active {
        Some(Error::WorkflowInactive)
    } else if record_of(v, id).owner != caller {
        Some(Error::NotOwner)
    } else {
        None
    }
}

/// The state after a successful `Execute` of `id` at time `now`: only the
/// record's `last_executed` changes.
pub open spec fn execute_trans(v: RegistryView, now: Timestamp, id: u64) -> RegistryView {
    let w = record_of(v, id);
    RegistryView {
        records: v.records.update(
            id - 1,
            WorkflowView { last_executed: now, ..w },
        ),
        index: v.index,
    }
}

/// The first failing check of `Deactivate`, or `None` when it succeeds. There
/// is deliberately no activity check: deactivating an already-inactive record
/// succeeds silently.
pub open spec fn deactivate_err(v: RegistryView, caller: Identity, id: u64) -> Option<Error> {
    if !valid_id(v, id) {
        Some(Error::InvalidWorkflowId)
    } else if record_of(v, id).owner != caller {
        Some(Error::NotOwner)
    } else {
        None
    }
}

/// The state after a successful `Deactivate` of `id`: only the record's
/// `is_active` flag changes, and only to `false`.
pub open spec fn deactivate_trans(v: RegistryView, id: u64) -> RegistryView {
    let w = record_of(v, id);
    RegistryView {
        records: v.records.update(
            id - 1,
            WorkflowView { is_active: false, ..w },
        ),
        index: v.index,
    }
}

/// Every assigned identifier, in ascending order: `1, 2, …, counter`.
pub open spec fn all_ids(v: RegistryView) -> Seq<u64> {
    Seq::new(v.records.len(), |i: int| (i + 1) as u64)
}

/// Under a unique-owner index, any slot holding `o` is the slot `owner_slot`
/// picks.
pub proof fn lemma_owner_slot_is(v: RegistryView, o: Identity, j: int)
    requires
        owners_unique(v),
        0 <= j < v.index.len(),
        v.index[j].owner == o,
    ensures
        has_owner_entry(v, o),
        owner_slot(v, o) == j,
{
    assert(has_owner_entry(v, o));
    let slot = owner_slot(v, o);
    assert(0 <= slot < v.index.len() && v.index[slot].owner == o);
    if slot != j {
        assert(v.index[slot].owner != v.index[j].owner);
        assert(false);
    }
}

/// Well-formedness survives a `Create`: the fresh record is listed under its
/// owner, the fresh identifier extends the caller's ascending listing, and no
/// other entry changes.
pub proof fn lemma_create_preserves_wf(
    v: RegistryView,
    caller: Identity,
    now: Timestamp,
    name: Seq<char>,
    steps: Seq<Seq<char>>,
)
    requires
        wf(v),
        v.records.len() < u64::MAX,
    ensures
        wf(create_trans(v, caller, now, name, steps)),
{
    let id = create_id(v);
    let v2 = create_trans(v, caller, now, name, steps);
    let n = v.records.len() as int;
    assert(id == n + 1);
    assert(v2.records.len() == n + 1);
    assert(forall|i: int| 0 <= i < n ==> v2.records[i] == v.records[i]);
    assert(v2.records[n] == new_record(caller, now, name, steps));
    assert forall|x: u64| valid_id(v, x) implies valid_id(v2, x) && record_of(v2, x) == record_of(
        v,
        x,
    ) by {
        assert(v2.records[x - 1] == v.records[x - 1]);
    }
    if has_owner_entry(v, caller) {
        let slot = owner_slot(v, caller);
        assert(0 <= slot < v.index.len() && v.index[slot].owner == caller);
        let e = v.index[slot];
        let e2 = OwnerEntryView { owner: caller, ids: e.ids.push(id) };
        assert(v2.index == v.index.update(slot, e2));
        assert forall|j: int| 0 <= j < v2.index.len() implies entry_wf(v2, j) by {
            assert(entry_wf(v, j));
            if j == slot {
                assert(v2.index[j] == e2);
                assert forall|k: int| 0 <= k < e2.ids.len() implies valid_id(
                    v2,
                    #[trigger] e2.ids[k],
                ) && record_of(v2, e2.ids[k]).owner == e2.owner by {
                    if k < e.ids.len() {
                        assert(e2.ids[k] == e.ids[k]);
                        assert(valid_id(v, e.ids[k]));
                    } else {
                        assert(e2.ids[k] == id);
                    }
                }
                assert forall|k1: int, k2: int| 0 <= k1 < k2 < e2.ids.len() implies e2.ids[k1]
                    < e2.ids[k2] by {
                    if k2 < e.ids.len() {
                        assert(e2.ids[k1] == e.ids[k1] && e2.ids[k2] == e.ids[k2]);
                    } else {
                        assert(e2.ids[k2] == id);
                        assert(e2.ids[k1] == e.ids[k1]);
                        assert(valid_id(v, e.ids[k1]));
                    }
                }
            } else {
                assert(v2.index[j] == v.index[j]);
                let ej = v.index[j];
                assert forall|k: int| 0 <= k < ej.ids.len() implies valid_id(
                    v2,
                    #[trigger] ej.ids[k],
                ) && record_of(v2, ej.ids[k]).owner == ej.owner by {
                    assert(valid_id(v, ej.ids[k]));
                }
            }
        }
        assert(forall|j: int| 0 <= j < v2.index.len() ==> v2.index[j].owner == v.index[j].owner);
        assert forall|i: int| 0 <= i < v2.records.len() implies record_listed(v2, i) by {
            if i < n {
                assert(record_listed(v, i));
                let o = v.records[i].owner;
                let x = (i + 1) as u64;
                let jj = choose|jj: int|
                    0 <= jj < v.index.len() && v.index[jj].owner == o && v.index[jj].ids.contains(
                        x,
                    );
                let kk = choose|kk: int|
                    0 <= kk < v.index[jj].ids.len() && v.index[jj].ids[kk] == x;
                if jj == slot {
                    assert(v2.index[jj].ids[kk] == x);
                } else {
                    assert(v2.index[jj].ids[kk] == x);
                }
                assert(v2.index[jj].ids.contains(x));
                assert(listed(v2, o, x));
                assert(v2.records[i].owner == o);
            } else {
                assert(v2.records[i].owner == caller);
                assert(v2.index[slot].ids[e.ids.len() as int] == id);
                assert(v2.index[slot].ids.contains(id));
                assert(listed(v2, caller, id));
                assert((i + 1) as u64 == id);
            }
        }
        assert(wf(v2));
    } else {
        let fresh = OwnerEntryView { owner: caller, ids: seq![id] };
        assert(v2.index == v.index.push(fresh));
        let m = v.index.len() as int;
        assert(forall|j: int| 0 <= j < m ==> v2.index[j] == v.index[j]);
        assert(v2.index[m] == fresh);
        assert forall|j: int| 0 <= j < v2.index.len() implies entry_wf(v2, j) by {
            if j < m {
                assert(entry_wf(v, j));
                let ej = v.index[j];
                assert(v2.index[j] == ej);
                assert forall|k: int| 0 <= k < ej.ids.len() implies valid_id(
                    v2,
                    #[trigger] ej.ids[k],
                ) && record_of(v2, ej.ids[k]).owner == ej.owner by {
                    assert(valid_id(v, ej.ids[k]));
                }
            } else {
                assert(v2.index[j].ids == seq![id]);
                assert(v2.index[j].ids[0] == id);
            }
        }
        assert forall|j1: int, j2: int| 0 <= j1 < j2 < v2.index.len() implies v2.index[j1].owner
            != v2.index[j2].owner by {
            if j2 < m {
                assert(v2.index[j1] == v.index[j1] && v2.index[j2] == v.index[j2]);
            } else {
                assert(v2.index[j1] == v.index[j1]);
                if v.index[j1].owner == caller {
                    assert(has_owner_entry(v, caller));
                }
            }
        }
        assert forall|i: int| 0 <= i < v2.records.len() implies record_listed(v2, i) by {
            if i < n {
                assert(record_listed(v, i));
                let o = v.records[i].owner;
                let x = (i + 1) as u64;
                let jj = choose|jj: int|
                    0 <= jj < v.index.len() && v.index[jj].owner == o && v.index[jj].ids.contains(
                        x,
                    );
                let kk = choose|kk: int|
                    0 <= kk < v.index[jj].ids.len() && v.index[jj].ids[kk] == x;
                assert(v2.index[jj].ids[kk] == x);
                assert(v2.index[jj].ids.contains(x));
                assert(listed(v2, o, x));
                assert(v2.records[i].owner == o);
            } else {
                assert(v2.records[i].owner == caller);
                assert(v2.index[m].ids[0] == id);
                assert(v2.index[m].ids.contains(id));
                assert(listed(v2, caller, id));
                assert((i + 1) as u64 == id);
            }
        }
        assert(wf(v2));
    }
}

/// Well-formedness survives replacing one record with another of the same
/// owner: both `Execute` and `Deactivate` change only non-owner fields.
pub proof fn lemma_update_record_preserves_wf(v: RegistryView, id: u64, w: WorkflowView)
    requires
        wf(v),
        valid_id(v, id),
        w.owner == record_of(v, id).owner,
    ensures
        wf(RegistryView { records: v.records.update(id - 1, w), index: v.index }),
{
    let v2 = RegistryView { records: v.records.update(id - 1, w), index: v.index };
    assert(v2.records.len() == v.records.len());
    assert forall|x: u64| valid_id(v, x) implies record_of(v2, x).owner == record_of(
        v,
        x,
    ).owner by {
        if x != id {
            assert(v2.records[x - 1] == v.records[x - 1]);
        }
    }
    assert forall|j: int| 0 <= j < v2.index.len() implies entry_wf(v2, j) by {
        assert(entry_wf(v, j));
        let ej = v.index[j];
        assert(v2.index[j] == ej);
        assert forall|k: int| 0 <= k < ej.ids.len() implies valid_id(v2, #[trigger] ej.ids[k])
            && record_of(v2, ej.ids[k]).owner == ej.owner by {
            assert(valid_id(v, ej.ids[k]));
        }
    }
    assert forall|i: int| 0 <= i < v2.records.len() implies record_listed(v2, i) by {
        assert(record_listed(v, i));
        let o = v.records[i].owner;
        let x = (i + 1) as u64;
        let jj = choose|jj: int|
            0 <= jj < v.index.len() && v.index[jj].owner == o && v.index[jj].ids.contains(x);
        assert(0 <= jj < v2.index.len() && v2.index[jj].owner == o && v2.index[jj].ids.contains(
            x,
        ));
        assert(listed(v2, o, x));
        assert(v2.records[i].owner == o);
    }
    assert(wf(v2));
}

} // verus!
