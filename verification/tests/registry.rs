use workflow_registry::errors::Error;
use workflow_registry::operations::{Operation, Query, QueryOutcome};
use workflow_registry::state::{DaoState, Identity, Timestamp};

fn owner(key: u64) -> Identity {
    Identity { key }
}

fn at(micros: u64) -> Timestamp {
    Timestamp { micros }
}

fn named(name: &str) -> String {
    name.to_string()
}

fn steps(list: &[&str]) -> Vec<String> {
    list.iter().map(|s| s.to_string()).collect()
}

#[test]
fn scenario_create_then_count_and_user_listing() {
    let mut s = DaoState::new();
    let x = owner(1);
    let id = s.create_workflow(x, at(100), named("w1"), steps(&["a", "b"]));
    assert_eq!(id, 1);
    assert_eq!(s.get_workflow_count(), 1);
    assert_eq!(s.get_user_workflows(x), Ok(vec![1]));
}

#[test]
fn scenario_execute_by_other_fails_not_owner_and_changes_nothing() {
    let mut s = DaoState::new();
    let x = owner(1);
    let y = owner(2);
    let id = s.create_workflow(x, at(100), named("w1"), steps(&["a"]));
    assert_eq!(s.execute_workflow(y, at(200), id), Err(Error::NotOwner));
    let w = s.get_workflow(id).unwrap();
    assert_eq!(w.last_executed, at(0));
    assert!(w.is_active);
}

#[test]
fn scenario_deactivate_then_execute_fails_inactive() {
    let mut s = DaoState::new();
    let x = owner(1);
    let id = s.create_workflow(x, at(100), named("w1"), steps(&[]));
    assert_eq!(s.deactivate_workflow(x, id), Ok(()));
    assert_eq!(s.execute_workflow(x, at(200), id), Err(Error::WorkflowInactive));
}

#[test]
fn scenario_empty_registry() {
    let mut s = DaoState::new();
    assert_eq!(s.get_workflow_count(), 0);
    assert_eq!(s.execute_workflow(owner(1), at(100), 1), Err(Error::InvalidWorkflowId));
}

#[test]
fn identifiers_are_monotonic_without_gaps() {
    let mut s = DaoState::new();
    let x = owner(1);
    let y = owner(2);
    assert_eq!(s.create_workflow(x, at(1), named("a"), steps(&[])), 1);
    assert_eq!(s.create_workflow(y, at(2), named("b"), steps(&[])), 2);
    assert_eq!(s.create_workflow(x, at(3), named("c"), steps(&[])), 3);
    assert_eq!(s.get_workflow_count(), 3);
}

#[test]
fn owner_index_lists_each_identifier_under_its_owner() {
    let mut s = DaoState::new();
    let x = owner(7);
    let y = owner(8);
    s.create_workflow(x, at(1), named("a"), steps(&[]));
    s.create_workflow(y, at(2), named("b"), steps(&[]));
    s.create_workflow(x, at(3), named("c"), steps(&[]));
    assert_eq!(s.get_user_workflows(x), Ok(vec![1, 3]));
    assert_eq!(s.get_user_workflows(y), Ok(vec![2]));
    assert_eq!(s.get_workflow(1).unwrap().owner, x);
    assert_eq!(s.get_workflow(2).unwrap().owner, y);
    assert_eq!(s.get_workflow(3).unwrap().owner, x);
}

#[test]
fn deactivation_does_not_prune_the_owner_index() {
    let mut s = DaoState::new();
    let x = owner(1);
    let id = s.create_workflow(x, at(1), named("a"), steps(&[]));
    assert_eq!(s.deactivate_workflow(x, id), Ok(()));
    assert_eq!(s.get_user_workflows(x), Ok(vec![1]));
}

#[test]
fn execute_fails_inactive_for_every_caller_after_deactivation() {
    let mut s = DaoState::new();
    let x = owner(1);
    let y = owner(2);
    let id = s.create_workflow(x, at(1), named("a"), steps(&[]));
    assert_eq!(s.deactivate_workflow(x, id), Ok(()));
    assert_eq!(s.execute_workflow(x, at(2), id), Err(Error::WorkflowInactive));
    assert_eq!(s.execute_workflow(y, at(3), id), Err(Error::WorkflowInactive));
    assert!(!s.get_workflow(id).unwrap().is_active);
}

#[test]
fn ownership_gate_on_deactivate() {
    let mut s = DaoState::new();
    let x = owner(1);
    let y = owner(2);
    let id = s.create_workflow(x, at(1), named("a"), steps(&[]));
    assert_eq!(s.deactivate_workflow(y, id), Err(Error::NotOwner));
    assert!(s.get_workflow(id).unwrap().is_active);
}

#[test]
fn range_validation_rejects_zero_and_one_past_the_counter() {
    let mut s = DaoState::new();
    let x = owner(1);
    s.create_workflow(x, at(1), named("a"), steps(&[]));
    assert_eq!(s.execute_workflow(x, at(2), 0), Err(Error::InvalidWorkflowId));
    assert_eq!(s.execute_workflow(x, at(2), 2), Err(Error::InvalidWorkflowId));
    assert_eq!(s.deactivate_workflow(x, 0), Err(Error::InvalidWorkflowId));
}

#[test]
fn deactivation_is_idempotent() {
    let mut s = DaoState::new();
    let x = owner(1);
    let id = s.create_workflow(x, at(1), named("a"), steps(&[]));
    assert_eq!(s.deactivate_workflow(x, id), Ok(()));
    assert_eq!(s.deactivate_workflow(x, id), Ok(()));
    assert!(!s.get_workflow(id).unwrap().is_active);
}

#[test]
fn created_record_carries_the_given_fields() {
    let mut s = DaoState::new();
    let x = owner(9);
    let id = s.create_workflow(x, at(42), named("deploy"), steps(&["build", "ship"]));
    let w = s.get_workflow(id).unwrap();
    assert_eq!(w.owner, x);
    assert_eq!(w.name, "deploy");
    assert_eq!(w.steps, vec!["build".to_string(), "ship".to_string()]);
    assert_eq!(w.created_at, at(42));
    assert_eq!(w.last_executed, at(0));
    assert!(w.is_active);
}

#[test]
fn execute_stamps_last_executed_and_nothing_else() {
    let mut s = DaoState::new();
    let x = owner(1);
    let id = s.create_workflow(x, at(10), named("a"), steps(&["s"]));
    assert_eq!(s.execute_workflow(x, at(20), id), Ok(()));
    let w = s.get_workflow(id).unwrap();
    assert_eq!(w.last_executed, at(20));
    assert_eq!(w.created_at, at(10));
    assert!(w.is_active);
    assert_eq!(s.execute_workflow(x, at(30), id), Ok(()));
    assert_eq!(s.get_workflow(id).unwrap().last_executed, at(30));
}

#[test]
fn get_workflow_reports_not_found_off_the_range() {
    let mut s = DaoState::new();
    s.create_workflow(owner(1), at(1), named("a"), steps(&[]));
    assert_eq!(s.get_workflow(0).unwrap_err(), Error::WorkflowNotFound);
    assert_eq!(s.get_workflow(2).unwrap_err(), Error::WorkflowNotFound);
}

#[test]
fn get_user_workflows_conflates_unknown_owner_with_not_found() {
    let s = DaoState::new();
    assert_eq!(s.get_user_workflows(owner(5)), Err(Error::WorkflowNotFound));
}

#[test]
fn get_all_workflow_ids_returns_the_whole_range() {
    let mut s = DaoState::new();
    assert_eq!(s.get_all_workflow_ids(), Vec::<u64>::new());
    s.create_workflow(owner(1), at(1), named("a"), steps(&[]));
    s.create_workflow(owner(2), at(2), named("b"), steps(&[]));
    s.create_workflow(owner(1), at(3), named("c"), steps(&[]));
    assert_eq!(s.get_all_workflow_ids(), vec![1, 2, 3]);
}

#[test]
fn operations_dispatch_like_the_direct_calls() {
    let mut s = DaoState::new();
    let x = owner(1);
    let y = owner(2);
    let created = s.execute_operation(
        x,
        at(1),
        Operation::CreateWorkflow { name: named("a"), steps: steps(&["s"]) },
    );
    assert_eq!(created, Ok(Some(1)));
    assert_eq!(
        s.execute_operation(x, at(2), Operation::ExecuteWorkflow { workflow_id: 1 }),
        Ok(None)
    );
    assert_eq!(
        s.execute_operation(y, at(3), Operation::DeactivateWorkflow { workflow_id: 1 }),
        Err(Error::NotOwner)
    );
    assert_eq!(
        s.execute_operation(x, at(4), Operation::DeactivateWorkflow { workflow_id: 1 }),
        Ok(None)
    );
    assert_eq!(
        s.execute_operation(x, at(5), Operation::ExecuteWorkflow { workflow_id: 1 }),
        Err(Error::WorkflowInactive)
    );
}

#[test]
fn queries_dispatch_like_the_direct_calls() {
    let mut s = DaoState::new();
    let x = owner(1);
    s.create_workflow(x, at(1), named("a"), steps(&["s"]));
    match s.query(Query::GetWorkflow { id: 1 }) {
        Ok(QueryOutcome::Workflow(w)) => assert_eq!(w.name, "a"),
        other => panic!("unexpected projection: {:?}", other),
    }
    match s.query(Query::GetWorkflowCount) {
        Ok(QueryOutcome::Count(c)) => assert_eq!(c, 1),
        other => panic!("unexpected projection: {:?}", other),
    }
    match s.query(Query::GetUserWorkflows { owner: x }) {
        Ok(QueryOutcome::Ids(ids)) => assert_eq!(ids, vec![1]),
        other => panic!("unexpected projection: {:?}", other),
    }
    match s.query(Query::GetAllWorkflowIds) {
        Ok(QueryOutcome::Ids(ids)) => assert_eq!(ids, vec![1]),
        other => panic!("unexpected projection: {:?}", other),
    }
    assert_eq!(
        s.query(Query::GetWorkflow { id: 9 }).unwrap_err(),
        Error::WorkflowNotFound
    );
    assert_eq!(
        s.query(Query::GetUserWorkflows { owner: owner(3) }).unwrap_err(),
        Error::WorkflowNotFound
    );
}

#[test]
fn error_messages_describe_each_failure() {
    assert_eq!(Error::WorkflowNotFound.message(), "Workflow not found");
    assert_eq!(Error::WorkflowInactive.message(), "Workflow is inactive");
    assert_eq!(Error::NotOwner.message(), "Not the owner of this workflow");
    assert_eq!(Error::InvalidWorkflowId.message(), "Invalid workflow ID");
}
