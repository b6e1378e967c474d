//! The request surface of the registry: the mutating operations, the
//! read-only queries, and the typed projection a query returns.

use vstd::prelude::*;

use crate::state::{Identity, Workflow};

verus! {

/// A mutating request, applied atomically against the registry.
#[derive(Debug)]
pub enum Operation {
    /// Assign the next identifier to a new record owned by the caller.
    CreateWorkflow { name: String, steps: Vec<String> },
    /// Touch the record's `last_executed` timestamp.
    ExecuteWorkflow { workflow_id: u64 },
    /// Irreversibly mark the record inactive.
    DeactivateWorkflow { workflow_id: u64 },
}

/// A read-only request producing a projection of the current state.
#[derive(Debug)]
pub enum Query {
    /// The full record at `id`.
    GetWorkflow { id: u64 },
    /// The number of records ever created.
    GetWorkflowCount,
    /// The identifiers created by `owner`, in ascending order.
    GetUserWorkflows { owner: Identity },
    /// Every identifier at which a record exists, in ascending order.
    GetAllWorkflowIds,
}

/// The typed projection one query returns; the host-facing shim may encode it
/// on the wire however it pleases.
#[derive(Debug)]
pub enum QueryOutcome {
    /// Answer to `GetWorkflow`.
    Workflow(Workflow),
    /// Answer to `GetWorkflowCount`.
    Count(u64),
    /// Answer to `GetUserWorkflows` and `GetAllWorkflowIds`.
    Ids(Vec<u64>),
}

} // verus!
