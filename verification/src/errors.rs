//! The error taxonomy of the registry. Every operation or query either
//! succeeds or reports exactly one of these; nothing is retried internally.

use vstd::prelude::*;

verus! {

/// A typed failure of one operation or query.
#[derive(Clone, Copy, Debug, PartialEq, Eq, Structural)]
pub enum Error {
    /// No record (or no owner-index entry, on the query path) at the key.
    WorkflowNotFound,
    /// An execution was attempted on a deactivated record.
    WorkflowInactive,
    /// The caller is not the owner of the record.
    NotOwner,
    /// The identifier lies outside the assigned range.
    InvalidWorkflowId,
}

impl Error {
    /// The human-readable description of this error.
    pub open spec fn message_spec(self) -> Seq<char> {
        match self {
            Error::WorkflowNotFound => "Workflow not found"@,
            Error::WorkflowInactive => "Workflow is inactive"@,
            Error::NotOwner => "Not the owner of this workflow"@,
            Error::InvalidWorkflowId => "Invalid workflow ID"@,
        }
    }

    /// Returns the human-readable description of this error.
    pub fn message(&self) -> (s: String)
        ensures
            s@ == self.message_spec(),
    {
        match self {
            Error::WorkflowNotFound => String::from_str("Workflow not found"),
            Error::WorkflowInactive => String::from_str("Workflow is inactive"),
            Error::NotOwner => String::from_str("Not the owner of this workflow"),
            Error::InvalidWorkflowId => String::from_str("Invalid workflow ID"),
        }
    }
}

} // verus!
