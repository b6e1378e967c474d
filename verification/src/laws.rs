//! The registry's stated properties, proved once over the abstract model
//! that the executable operations refine: every operation's `ensures` pins
//! its result and next state to the model's transition functions, so what is
//! proved here holds of every reachable state of `DaoState`.

use vstd::prelude::*;

use crate::errors::Error;
use crate::model;
use crate::model::RegistryView;
use crate::state::{Identity, Timestamp};

verus! {

/// Monotonic identifiers: from any well-formed state, `Create` returns the
/// identifier one past the number of records ever created, strictly above
/// every identifier assigned before, and the next `Create` returns the next
/// one — `1, 2, 3, …` in commit order, with no gap and no reuse.
pub proof fn lemma_monotonic_identifiers(
    v: RegistryView,
    caller: Identity,
    now: Timestamp,
    name: Seq<char>,
    steps: Seq<Seq<char>>,
)
    requires
        model::wf(v),
        v.records.len() + 1 < u64::MAX,
    ensures
        model::create_id(v) == v.records.len() + 1,
        forall|id: u64| model::valid_id(v, id) ==> id < model::create_id(v),
        model::wf(model::create_trans(v, caller, now, name, steps)),
        model::create_id(model::create_trans(v, caller, now, name, steps)) == model::create_id(v)
            + 1,
{
    model::lemma_create_preserves_wf(v, caller, now, name, steps);
}

/// Owner-index consistency: in every well-formed state, an identifier is
/// listed under an owner in the index exactly when the record store holds a
/// record of that owner at that identifier.
pub proof fn lemma_owner_index_consistency(v: RegistryView, o: Identity, id: u64)
    requires
        model::wf(v),
    ensures
        model::listed(v, o, id) <==> (model::valid_id(v, id) && model::record_of(v, id).owner
            == o),
{
    if model::listed(v, o, id) {
        let j = choose|j: int|
            0 <= j < v.index.len() && v.index[j].owner == o && v.index[j].ids.contains(id);
        assert(model::entry_wf(v, j));
        let k = choose|k: int| 0 <= k < v.index[j].ids.len() && v.index[j].ids[k] == id;
        assert(model::valid_id(v, v.index[j].ids[k]));
    }
    if model::valid_id(v, id) && model::record_of(v, id).owner == o {
        let i = id - 1;
        assert(model::record_listed(v, i));
        assert((i + 1) as u64 == id);
    }
}

/// Ownership gate: a caller that does not own a record cannot touch it.
/// `Deactivate` fails `NotOwner`; `Execute` fails `NotOwner` on an active
/// record — on an inactive one the activity check speaks first, reporting
/// `WorkflowInactive`, per the executor's documented check order. That a
/// failing operation changes nothing is part of each operation's `ensures`.
pub proof fn lemma_ownership_gate(v: RegistryView, caller: Identity, id: u64)
    requires
        model::wf(v),
        model::valid_id(v, id),
        model::record_of(v, id).owner != caller,
    ensures
        model::record_of(v, id).is_active ==> model::execute_err(v, caller, id) == Some(
            Error::NotOwner,
        ),
        model::deactivate_err(v, caller, id) == Some(Error::NotOwner),
{
}

/// Range validation: an identifier of zero or above the counter is rejected
/// as `InvalidWorkflowId` by `Execute` and `Deactivate` alike, whoever calls;
/// that nothing changes then is part of each operation's `ensures`.
pub proof fn lemma_range_validation(v: RegistryView, caller: Identity, id: u64)
    requires
        model::wf(v),
        id == 0 || id > v.records.len(),
    ensures
        model::execute_err(v, caller, id) == Some(Error::InvalidWorkflowId),
        model::deactivate_err(v, caller, id) == Some(Error::InvalidWorkflowId),
{
}

/// One operation of a run, as the model sees it: who called, when, and with
/// what arguments.
pub enum StepView {
    Create { caller: Identity, now: Timestamp, name: Seq<char>, steps: Seq<Seq<char>> },
    Execute { caller: Identity, now: Timestamp, id: u64 },
    Deactivate { caller: Identity, id: u64 },
}

/// The state after one step. A step whose checks fail changes nothing, and a
/// creation with the identifier space exhausted assigns nothing.
pub open spec fn step_trans(v: RegistryView, s: StepView) -> RegistryView {
    match s {
        StepView::Create { caller, now, name, steps } => if v.records.len() < u64::MAX {
            model::create_trans(v, caller, now, name, steps)
        } else {
            v
        },
        StepView::Execute { caller, now, id } => if model::execute_err(v, caller, id) is None {
            model::execute_trans(v, now, id)
        } else {
            v
        },
        StepView::Deactivate { caller, id } => if model::deactivate_err(v, caller, id) is None {
            model::deactivate_trans(v, id)
        } else {
            v
        },
    }
}

/// The state after a run of steps, applied left to right.
pub open spec fn run_trans(v: RegistryView, run: Seq<StepView>) -> RegistryView
    decreases run.len(),
{
    if run.len() == 0 {
        v
    } else {
        run_trans(step_trans(v, run[0]), run.subrange(1, run.len() as int))
    }
}

/// Every step leaves the state well formed and never discards a record.
pub proof fn lemma_step_preserves_wf(v: RegistryView, s: StepView)
    requires
        model::wf(v),
    ensures
        model::wf(step_trans(v, s)),
        v.records.len() <= step_trans(v, s).records.len(),
{
    match s {
        StepView::Create { caller, now, name, steps } => {
            if v.records.len() < u64::MAX {
                model::lemma_create_preserves_wf(v, caller, now, name, steps);
            }
        },
        StepView::Execute { caller, now, id } => {
            if model::execute_err(v, caller, id) is None {
                model::lemma_update_record_preserves_wf(
                    v,
                    id,
                    model::execute_trans(v, now, id).records[id - 1],
                );
            }
        },
        StepView::Deactivate { caller, id } => {
            if model::deactivate_err(v, caller, id) is None {
                model::lemma_update_record_preserves_wf(
                    v,
                    id,
                    model::deactivate_trans(v, id).records[id - 1],
                );
            }
        },
    }
}

/// No single step reactivates an inactive record.
pub proof fn lemma_step_keeps_inactive(v: RegistryView, id: u64, s: StepView)
    requires
        model::wf(v),
        model::valid_id(v, id),
        !model::record_of(v, id).is_active,
    ensures
        model::wf(step_trans(v, s)),
        model::valid_id(step_trans(v, s), id),
        !model::record_of(step_trans(v, s), id).is_active,
{
    lemma_step_preserves_wf(v, s);
    let v2 = step_trans(v, s);
    match s {
        StepView::Create { caller, now, name, steps } => {
            if v.records.len() < u64::MAX {
                assert(v2.records[id - 1] == v.records[id - 1]);
            }
        },
        StepView::Execute { caller, now, id: other } => {
            if model::execute_err(v, caller, other) is None {
                assert(other != id);
                assert(v2.records[id - 1] == v.records[id - 1]);
            }
        },
        StepView::Deactivate { caller, id: other } => {
            if model::deactivate_err(v, caller, other) is None {
                if other != id {
                    assert(v2.records[id - 1] == v.records[id - 1]);
                }
            }
        },
    }
}

/// Irreversibility over whole runs: once a record is inactive, it stays
/// inactive under every sequence of operations by every caller, and `Execute`
/// on it keeps failing `WorkflowInactive` for everyone.
pub proof fn lemma_irreversibility_run(v: RegistryView, id: u64, run: Seq<StepView>)
    requires
        model::wf(v),
        model::valid_id(v, id),
        !model::record_of(v, id).is_active,
    ensures
        model::wf(run_trans(v, run)),
        model::valid_id(run_trans(v, run), id),
        !model::record_of(run_trans(v, run), id).is_active,
        forall|c: Identity| #[trigger] model::execute_err(run_trans(v, run), c, id) == Some(
            Error::WorkflowInactive,
        ),
    decreases run.len(),
{
    if run.len() == 0 {
    } else {
        lemma_step_keeps_inactive(v, id, run[0]);
        lemma_irreversibility_run(step_trans(v, run[0]), id, run.subrange(1, run.len() as int));
    }
}

/// The identifiers a run of creations returns, in call order.
pub open spec fn run_create_ids(v: RegistryView, run: Seq<StepView>) -> Seq<u64>
    decreases run.len(),
{
    if run.len() == 0 {
        Seq::empty()
    } else {
        seq![model::create_id(v)] + run_create_ids(
            step_trans(v, run[0]),
            run.subrange(1, run.len() as int),
        )
    }
}

/// Every step of the run is a creation.
pub open spec fn all_creates(run: Seq<StepView>) -> bool {
    forall|i: int| 0 <= i < run.len() ==> run[i] is Create
}

/// Monotonic identifiers over whole runs: a sequence of creations from a
/// state holding `n` records returns `n + 1, n + 2, …` in call-commit order —
/// from the empty registry, `1, 2, 3, …` — with no gap and no repeat.
pub proof fn lemma_monotonic_identifiers_run(v: RegistryView, run: Seq<StepView>)
    requires
        model::wf(v),
        all_creates(run),
        v.records.len() + run.len() <= u64::MAX,
    ensures
        run_create_ids(v, run).len() == run.len(),
        forall|i: int|
            0 <= i < run.len() ==> run_create_ids(v, run)[i] == v.records.len() + i + 1,
    decreases run.len(),
{
    if run.len() > 0 {
        let v1 = step_trans(v, run[0]);
        let rest = run.subrange(1, run.len() as int);
        assert(run[0] is Create);
        lemma_step_preserves_wf(v, run[0]);
        assert(v1.records.len() == v.records.len() + 1);
        assert(all_creates(rest)) by {
            assert(forall|i: int| 0 <= i < rest.len() ==> rest[i] == run[i + 1]);
        }
        lemma_monotonic_identifiers_run(v1, rest);
        assert forall|i: int| 0 <= i < run.len() implies run_create_ids(v, run)[i]
            == v.records.len() + i + 1 by {
            if i == 0 {
                assert(run_create_ids(v, run)[0] == model::create_id(v));
            } else {
                assert(run_create_ids(v, run)[i] == run_create_ids(v1, rest)[i - 1]);
            }
        }
    }
}

/// Idempotent deactivation: the owner may deactivate a record twice; both
/// calls succeed — there is deliberately no activity check on this path — and
/// the record ends, and stays, inactive.
pub proof fn lemma_idempotent_deactivation(v: RegistryView, caller: Identity, id: u64)
    requires
        model::wf(v),
        model::valid_id(v, id),
        model::record_of(v, id).owner == caller,
    ensures
        model::deactivate_err(v, caller, id) is None,
        ({
            let v2 = model::deactivate_trans(v, id);
            &&& model::wf(v2)
            &&& !model::record_of(v2, id).is_active
            &&& model::deactivate_err(v2, caller, id) is None
            &&& !model::record_of(model::deactivate_trans(v2, id), id).is_active
        }),
{
    let v2 = model::deactivate_trans(v, id);
    model::lemma_update_record_preserves_wf(v, id, v2.records[id - 1]);
}

} // verus!
