//! A workflow registry: owner-created records under monotonically increasing
//! identifiers, a reverse index from each owner to the identifiers it created,
//! and an ownership-gated lifecycle (active, then irreversibly inactive) on
//! each record.

pub mod errors;
pub mod laws;
pub mod model;
pub mod operations;
pub mod state;
