//! The registry state and its operations: the record store, the identifier
//! counter and the owner index as one owned aggregate, the operation executor
//! that mutates it, and the query projector that reads it.
//!
//! The host runtime around the registry is an external collaborator: it
//! authenticates the caller and supplies the clock, so every mutating call
//! takes the caller identity and the current time as explicit parameters.

use vstd::prelude::*;

use crate::errors::Error;
use crate::model;
use crate::model::{OwnerEntryView, RegistryView, WorkflowView};
use crate::operations::{Operation, Query, QueryOutcome};

verus! {

/// An authenticated caller. Opaque to the registry: equality is the sole
/// authorization primitive.
#[derive(Clone, Copy, Debug, PartialEq, Eq, Hash, Structural)]
pub struct Identity {
    pub key: u64,
}

/// A host-supplied wall-clock value; the registry stores it and never
/// computes with it.
#[derive(Clone, Copy, Debug, PartialEq, Eq, Structural)]
pub struct Timestamp {
    pub micros: u64,
}

impl Timestamp {
    /// The epoch value that `last_executed` carries until the first
    /// execution.
    pub fn epoch() -> (t: Timestamp)
        ensures
            t == model::epoch(),
    {
        Timestamp { micros: 0 }
    }
}

/// One workflow record.
#[derive(Debug)]
pub struct Workflow {
    pub owner: Identity,
    pub name: String,
    pub steps: Vec<String>,
    pub created_at: Timestamp,
    pub last_executed: Timestamp,
    pub is_active: bool,
}

impl View for Workflow {
    type V = WorkflowView;

    open spec fn view(&self) -> WorkflowView {
        WorkflowView {
            owner: self.owner,
            name: self.name@,
            steps: self.steps.deep_view(),
            created_at: self.created_at,
            last_executed: self.last_executed,
            is_active: self.is_active,
        }
    }
}

impl Clone for Workflow {
    fn clone(&self) -> (res: Self)
        ensures
            res@ == self@,
    {
        let steps = self.steps.clone();
        proof {
            assert forall|i: int| 0 <= i < self.steps@.len() implies steps.deep_view()[i]
                == self.steps.deep_view()[i] by {
                assert(cloned::<String>(self.steps[i], steps[i]));
            }
            assert(steps.deep_view() =~~= self.steps.deep_view());
        }
        Workflow {
            owner: self.owner,
            name: self.name.clone(),
            steps,
            created_at: self.created_at,
            last_executed: self.last_executed,
            is_active: self.is_active,
        }
    }
}

/// One owner-index entry: an owner and the identifiers it created, kept in
/// ascending order.
#[derive(Debug)]
pub struct OwnerEntry {
    pub owner: Identity,
    pub ids: Vec<u64>,
}

impl View for OwnerEntry {
    type V = OwnerEntryView;

    open spec fn view(&self) -> OwnerEntryView {
        OwnerEntryView { owner: self.owner, ids: self.ids@ }
    }
}

/// The whole registry: the counter of assigned identifiers, the record store
/// (the record with identifier `i + 1` stands at index `i`), and the owner
/// index.
#[derive(Debug)]
pub struct DaoState {
    pub workflow_count: u64,
    pub workflows: Vec<Workflow>,
    pub user_workflows: Vec<OwnerEntry>,
}

impl View for DaoState {
    type V = RegistryView;

    open spec fn view(&self) -> RegistryView {
        RegistryView {
            records: self.workflows@.map_values(|w: Workflow| w@),
            index: self.user_workflows@.map_values(|e: OwnerEntry| e@),
        }
    }
}

/// Finds the position of `owner`'s entry, or reports that none exists.
fn find_owner_slot(entries: &Vec<OwnerEntry>, owner: Identity) -> (r: Option<usize>)
    ensures
        match r {
            Some(j) => j < entries@.len() && entries@[j as int].owner == owner,
            None => forall|k: int| 0 <= k < entries@.len() ==> entries@[k].owner != owner,
        },
{
    let mut j: usize = 0;
    while j < entries.len()
        invariant
            j <= entries@.len(),
            forall|k: int| 0 <= k < j ==> entries@[k].owner != owner,
        decreases entries@.len() - j,
    {
        if entries[j].owner == owner {
            return Some(j);
        }
        j = j + 1;
    }
    None
}

/// Copies a list of identifiers.
fn copy_ids(ids: &Vec<u64>) -> (r: Vec<u64>)
    ensures
        r@ == ids@,
{
    let mut r: Vec<u64> = Vec::new();
    let mut j: usize = 0;
    while j < ids.len()
        invariant
            j <= ids@.len(),
            r@ == ids@.subrange(0, j as int),
        decreases ids@.len() - j,
    {
        r.push(ids[j]);
        proof {
            assert(r@ =~= ids@.subrange(0, j + 1));
        }
        j = j + 1;
    }
    proof {
        assert(r@ =~= ids@);
    }
    r
}

impl DaoState {
    /// The state, abstractly well formed, with the counter agreeing with the
    /// record store.
    pub open spec fn wf(self) -> bool {
        &&& self.workflow_count == self@.records.len()
        &&& model::wf(self@)
    }

    /// Returns the empty registry: no record, counter at zero, no owner-index
    /// entry.
    pub fn new() -> (s: DaoState)
        ensures
            s.wf(),
            s@ == model::empty_registry(),
    {
        let s = DaoState {
            workflow_count: 0,
            workflows: Vec::new(),
            user_workflows: Vec::new(),
        };
        proof {
            assert(s@.records =~= model::empty_registry().records);
            assert(s@.index =~= model::empty_registry().index);
            assert(s@ =~= model::empty_registry());
        }
        s
    }

    /// Creates a record owned by `caller`: assigns the next identifier,
    /// stores the record, and lists the identifier under the caller in the
    /// owner index. Returns the assigned identifier. Cannot fail.
    pub fn create_workflow(
        &mut self,
        caller: Identity,
        now: Timestamp,
        name: String,
        steps: Vec<String>,
    ) -> (id: u64)
        requires
            old(self).wf(),
            old(self).workflow_count < u64::MAX,
        ensures
            final(self).wf(),
            id == model::create_id(old(self)@),
            final(self)@ == model::create_trans(old(self)@, caller, now, name@, steps.deep_view()),
    {
        let ghost oldv = self@;
        let ghost nm = name@;
        let ghost st = steps.deep_view();
        let id = self.workflow_count + 1;
        self.workflow_count = id;
        let workflow = Workflow {
            owner: caller,
            name,
            steps,
            created_at: now,
            last_executed: Timestamp::epoch(),
            is_active: true,
        };
        proof {
            assert(workflow@ =~~= model::new_record(caller, now, nm, st));
            assert(id == model::create_id(oldv));
        }
        self.workflows.push(workflow);
        proof {
            assert(self@.records =~= oldv.records.push(model::new_record(caller, now, nm, st)));
        }
        match find_owner_slot(&self.user_workflows, caller) {
            Some(j) => {
                let mut new_ids = copy_ids(&self.user_workflows[j].ids);
                new_ids.push(id);
                self.user_workflows[j] = OwnerEntry { owner: caller, ids: new_ids };
                proof {
                    model::lemma_owner_slot_is(oldv, caller, j as int);
                    assert(self@.index =~= model::index_after_create(oldv, caller, id));
                }
            },
            None => {
                let mut new_ids: Vec<u64> = Vec::new();
                new_ids.push(id);
                self.user_workflows.push(OwnerEntry { owner: caller, ids: new_ids });
                proof {
                    if model::has_owner_entry(oldv, caller) {
                        let slot = model::owner_slot(oldv, caller);
                        assert(oldv.index[slot].owner == caller);
                        assert(false);
                    }
                    assert(self@.index =~= model::index_after_create(oldv, caller, id));
                }
            },
        }
        proof {
            assert(self@ =~= model::create_trans(oldv, caller, now, nm, st));
            model::lemma_create_preserves_wf(oldv, caller, now, nm, st);
        }
        id
    }

    /// Executes the record at `workflow_id`: after the in-range, active and
    /// ownership checks, in that order, stamps `last_executed` with the
    /// current time. Nothing else changes; an error changes nothing.
    pub fn execute_workflow(&mut self, caller: Identity, now: Timestamp, workflow_id: u64) -> (r:
        Result<(), Error>)
        requires
            old(self).wf(),
        ensures
            final(self).wf(),
            (model::execute_err(old(self)@, caller, workflow_id) matches Some(e) ==> r
                == Result::<(), Error>::Err(e) && final(self)@ == old(self)@),
            (model::execute_err(old(self)@, caller, workflow_id) is None ==> r == Result::<
                (),
                Error,
            >::Ok(()) && final(self)@ == model::execute_trans(old(self)@, now, workflow_id)),
    {
        if workflow_id == 0 || workflow_id > self.workflow_count {
            return Err(Error::InvalidWorkflowId);
        }
        let n = self.workflows.len();
        proof {
            assert(workflow_id - 1 < n);
        }
        let idx = (workflow_id - 1) as usize;
        if !self.workflows[idx].is_active {
            return Err(Error::WorkflowInactive);
        }
        if self.workflows[idx].owner != caller {
            return Err(Error::NotOwner);
        }
        let mut updated = self.workflows[idx].clone();
        updated.last_executed = now;
        self.workflows[idx] = updated;
        proof {
            let v2 = model::execute_trans(old(self)@, now, workflow_id);
            assert(self@.records =~~= v2.records);
            assert(self@ =~= v2);
            model::lemma_update_record_preserves_wf(
                old(self)@,
                workflow_id,
                v2.records[workflow_id - 1],
            );
        }
        Ok(())
    }

    /// Deactivates the record at `workflow_id`: after the in-range and
    /// ownership checks — deliberately without an activity check, so a second
    /// deactivation succeeds silently — clears `is_active`, irreversibly.
    pub fn deactivate_workflow(&mut self, caller: Identity, workflow_id: u64) -> (r: Result<
        (),
        Error,
    >)
        requires
            old(self).wf(),
        ensures
            final(self).wf(),
            (model::deactivate_err(old(self)@, caller, workflow_id) matches Some(e) ==> r
                == Result::<(), Error>::Err(e) && final(self)@ == old(self)@),
            (model::deactivate_err(old(self)@, caller, workflow_id) is None ==> r == Result::<
                (),
                Error,
            >::Ok(()) && final(self)@ == model::deactivate_trans(old(self)@, workflow_id)),
    {
        if workflow_id == 0 || workflow_id > self.workflow_count {
            return Err(Error::InvalidWorkflowId);
        }
        let n = self.workflows.len();
        proof {
            assert(workflow_id - 1 < n);
        }
        let idx = (workflow_id - 1) as usize;
        if self.workflows[idx].owner != caller {
            return Err(Error::NotOwner);
        }
        let mut updated = self.workflows[idx].clone();
        updated.is_active = false;
        self.workflows[idx] = updated;
        proof {
            let v2 = model::deactivate_trans(old(self)@, workflow_id);
            assert(self@.records =~~= v2.records);
            assert(self@ =~= v2);
            model::lemma_update_record_preserves_wf(
                old(self)@,
                workflow_id,
                v2.records[workflow_id - 1],
            );
        }
        Ok(())
    }

    /// Applies one operation atomically: either every effect of the operation
    /// applies, or an error is returned and nothing changed. `Create` answers
    /// with the assigned identifier.
    pub fn execute_operation(&mut self, caller: Identity, now: Timestamp, operation: Operation)
        -> (r: Result<Option<u64>, Error>)
        requires
            old(self).wf(),
            old(self).workflow_count < u64::MAX,
        ensures
            final(self).wf(),
            (operation matches Operation::CreateWorkflow { name, steps } ==> r == Result::<
                Option<u64>,
                Error,
            >::Ok(Some(model::create_id(old(self)@))) && final(self)@ == model::create_trans(
                old(self)@,
                caller,
                now,
                name@,
                steps.deep_view(),
            )),
            (operation matches Operation::ExecuteWorkflow { workflow_id } ==> ((
            model::execute_err(old(self)@, caller, workflow_id) matches Some(e) ==> r == Result::<
                Option<u64>,
                Error,
            >::Err(e) && final(self)@ == old(self)@) && (model::execute_err(
                old(self)@,
                caller,
                workflow_id,
            ) is None ==> r == Result::<Option<u64>, Error>::Ok(None) && final(self)@
                == model::execute_trans(old(self)@, now, workflow_id)))),
            (operation matches Operation::DeactivateWorkflow { workflow_id } ==> ((
            model::deactivate_err(old(self)@, caller, workflow_id) matches Some(e) ==> r
                == Result::<Option<u64>, Error>::Err(e) && final(self)@ == old(self)@) && (
            model::deactivate_err(old(self)@, caller, workflow_id) is None ==> r == Result::<
                Option<u64>,
                Error,
            >::Ok(None) && final(self)@ == model::deactivate_trans(old(self)@, workflow_id)))),
    {
        match operation {
            Operation::CreateWorkflow { name, steps } => {
                let id = self.create_workflow(caller, now, name, steps);
                Ok(Some(id))
            },
            Operation::ExecuteWorkflow { workflow_id } => {
                match self.execute_workflow(caller, now, workflow_id) {
                    Ok(()) => Ok(None),
                    Err(e) => Err(e),
                }
            },
            Operation::DeactivateWorkflow { workflow_id } => {
                match self.deactivate_workflow(caller, workflow_id) {
                    Ok(()) => Ok(None),
                    Err(e) => Err(e),
                }
            },
        }
    }

    /// Returns the full record at `id`, or `WorkflowNotFound` where no record
    /// exists. A query rejects nothing by range: an unassigned identifier is
    /// simply not found.
    pub fn get_workflow(&self, id: u64) -> (r: Result<Workflow, Error>)
        requires
            self.wf(),
        ensures
            model::valid_id(self@, id) ==> (r matches Ok(w) && w@ == model::record_of(self@, id)),
            !model::valid_id(self@, id) ==> r == Result::<Workflow, Error>::Err(
                Error::WorkflowNotFound,
            ),
    {
        if id == 0 || id > self.workflow_count {
            return Err(Error::WorkflowNotFound);
        }
        let n = self.workflows.len();
        proof {
            assert(id - 1 < n);
        }
        let idx = (id - 1) as usize;
        Ok(self.workflows[idx].clone())
    }

    /// Returns the number of records ever created, which equals the last
    /// identifier assigned.
    pub fn get_workflow_count(&self) -> (r: u64)
        requires
            self.wf(),
        ensures
            r == self@.records.len(),
    {
        self.workflow_count
    }

    /// Returns the identifiers `owner` created, in ascending order, or
    /// `WorkflowNotFound` for an owner that never created one: an owner with
    /// no entry is indistinguishable from an unknown owner, since entries are
    /// made lazily by the first creation.
    pub fn get_user_workflows(&self, owner: Identity) -> (r: Result<Vec<u64>, Error>)
        requires
            self.wf(),
        ensures
            model::has_owner_entry(self@, owner) ==> (r matches Ok(ids) && ids@
                == model::owner_ids(self@, owner)),
            !model::has_owner_entry(self@, owner) ==> r == Result::<Vec<u64>, Error>::Err(
                Error::WorkflowNotFound,
            ),
    {
        match find_owner_slot(&self.user_workflows, owner) {
            Some(j) => {
                proof {
                    model::lemma_owner_slot_is(self@, owner, j as int);
                }
                Ok(copy_ids(&self.user_workflows[j].ids))
            },
            None => {
                proof {
                    if model::has_owner_entry(self@, owner) {
                        let slot = model::owner_slot(self@, owner);
                        assert(self@.index[slot].owner == owner);
                        assert(false);
                    }
                }
                Err(Error::WorkflowNotFound)
            },
        }
    }

    /// Scans the assigned range and returns every identifier at which a
    /// record exists; records are never deleted, so that is the whole range
    /// `1..=counter`, in ascending order.
    pub fn get_all_workflow_ids(&self) -> (r: Vec<u64>)
        requires
            self.wf(),
        ensures
            r@ == model::all_ids(self@),
    {
        let mut ids: Vec<u64> = Vec::new();
        let n = self.workflows.len();
        let mut i: usize = 0;
        while i < n
            invariant
                i <= n,
                n == self@.records.len(),
                self@.records.len() <= u64::MAX,
                ids@.len() == i,
                forall|k: int| 0 <= k < i ==> ids@[k] == (k + 1) as u64,
            decreases n - i,
        {
            ids.push((i as u64) + 1);
            i = i + 1;
        }
        proof {
            assert(ids@ =~= model::all_ids(self@));
        }
        ids
    }

    /// Answers one read-only query with a typed projection of the current
    /// state; the state never changes.
    pub fn query(&self, query: Query) -> (r: Result<QueryOutcome, Error>)
        requires
            self.wf(),
        ensures
            (query matches Query::GetWorkflow { id } ==> ((model::valid_id(self@, id) ==> (
            r matches Ok(o) && o matches QueryOutcome::Workflow(w) && w@ == model::record_of(
                self@,
                id,
            ))) && (!model::valid_id(self@, id) ==> r == Result::<QueryOutcome, Error>::Err(
                Error::WorkflowNotFound,
            )))),
            (query is GetWorkflowCount ==> (r matches Ok(o) && o matches QueryOutcome::Count(c)
                && c == self@.records.len())),
            (query matches Query::GetUserWorkflows { owner } ==> ((model::has_owner_entry(
                self@,
                owner,
            ) ==> (r matches Ok(o) && o matches QueryOutcome::Ids(ids) && ids@ == model::owner_ids(
                self@,
                owner,
            ))) && (!model::has_owner_entry(self@, owner) ==> r == Result::<
                QueryOutcome,
                Error,
            >::Err(Error::WorkflowNotFound)))),
            (query is GetAllWorkflowIds ==> (r matches Ok(o) && o matches QueryOutcome::Ids(ids)
                && ids@ == model::all_ids(self@))),
    {
        match query {
            Query::GetWorkflow { id } => {
                match self.get_workflow(id) {
                    Ok(w) => Ok(QueryOutcome::Workflow(w)),
                    Err(e) => Err(e),
                }
            },
            Query::GetWorkflowCount => Ok(QueryOutcome::Count(self.get_workflow_count())),
            Query::GetUserWorkflows { owner } => {
                match self.get_user_workflows(owner) {
                    Ok(ids) => Ok(QueryOutcome::Ids(ids)),
                    Err(e) => Err(e),
                }
            },
            Query::GetAllWorkflowIds => Ok(QueryOutcome::Ids(self.get_all_workflow_ids())),
        }
    }
}

} // verus!
