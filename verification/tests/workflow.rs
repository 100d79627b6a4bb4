use pharness_api::error::ErrorKind;
use pharness_api::json::{json_equal, JsonValue};
use pharness_api::workflow_operations::{
    approval_operation_condition, dispatched_operation_step, pending_operation_step, ContinuationMaterial,
    DispatchedStep, ObservedRun, ObservedStage, OfferedAction, PendingStep, WorkflowOperation,
};
use pharness_api::workflow_progression::{
    advance_step, operation_id, operation_resource_keys, AdvanceStep, AutomaticAction,
};

fn offered(id: &str, status: &str, hash: &str, resource: &str) -> OfferedAction {
    OfferedAction {
        id: id.to_string(),
        status: status.to_string(),
        state_hash: hash.to_string(),
        resource: resource.to_string(),
        external_effect_summary: format!("{id} summary"),
    }
}

fn all_authorized() -> Vec<AutomaticAction> {
    vec![
        AutomaticAction::Plan,
        AutomaticAction::Implement,
        AutomaticAction::Test,
        AutomaticAction::Verify,
        AutomaticAction::SourceDelivery,
    ]
}

#[test]
fn a_recorded_operation_is_reconciled_before_anything_else() {
    let actions = vec![offered("start_planner", "ready", "h1", "wi-1")];
    let step = advance_step(true, true, "cancelled", true, &actions, None, &vec![]).ok().unwrap();
    assert!(matches!(step, AdvanceStep::ReconcileOperation));
}

#[test]
fn stopped_or_closed_work_starts_nothing() {
    let actions = vec![offered("start_planner", "ready", "h1", "wi-1")];
    match advance_step(false, true, "active", false, &actions, None, &all_authorized()).ok().unwrap() {
        AdvanceStep::Report(c) => {
            assert_eq!(c.0, "closed");
            assert_eq!(c.1, "The WorkItem is closed; retained evidence is unchanged.");
        },
        _ => panic!("expected a report"),
    }
    match advance_step(false, false, "paused", false, &actions, None, &all_authorized()).ok().unwrap() {
        AdvanceStep::Report(c) => {
            assert_eq!(c.0, "paused");
            assert_eq!(c.1, "New development and promotion are stopped. Observation and authorized recovery continue.");
        },
        _ => panic!("expected a report"),
    }
    match advance_step(false, false, "active", true, &actions, None, &all_authorized()).ok().unwrap() {
        AdvanceStep::Report(c) => assert_eq!(c.0, "wait_expired"),
        _ => panic!("expected a report"),
    }
}

#[test]
fn the_first_ready_automatic_action_starts_when_authorized() {
    let actions = vec![
        offered("approve_production", "ready", "h0", "wi-1"),
        offered("start_planner", "blocked", "h1", "wi-1"),
        offered("authorize_stage_chain", "ready", "h2", "plan-1"),
        offered("approve_change_set", "ready", "h3", "cs-1"),
    ];
    match advance_step(false, false, "active", false, &actions, None, &all_authorized()).ok().unwrap() {
        AdvanceStep::Start { action, input_hash, resource } => {
            assert_eq!(action, "authorize_stage_chain");
            assert_eq!(input_hash, "h2");
            assert_eq!(resource, "plan-1");
        },
        _ => panic!("expected a start"),
    }
    let error = advance_step(false, false, "active", false, &actions, None, &vec![AutomaticAction::Plan]).err().unwrap();
    assert_eq!(error.kind, ErrorKind::Conflict);
}

#[test]
fn continuation_or_waiting_when_nothing_is_offered() {
    let none: Vec<OfferedAction> = vec![];
    let continuation = ContinuationMaterial { run_id: "run-7".to_string(), material_hash: "m7".to_string() };
    match advance_step(false, false, "active", false, &none, Some(&continuation), &all_authorized()).ok().unwrap() {
        AdvanceStep::Start { action, input_hash, resource } => {
            assert_eq!(action, "continue_stage");
            assert_eq!(input_hash, "m7");
            assert_eq!(resource, "run-7");
        },
        _ => panic!("expected a continuation"),
    }
    assert!(advance_step(false, false, "active", false, &none, Some(&continuation), &vec![AutomaticAction::Implement]).is_err());
    match advance_step(false, false, "active", false, &none, None, &all_authorized()).ok().unwrap() {
        AdvanceStep::Report(c) => {
            assert_eq!(c.0, "waiting");
            assert_eq!(c.1, "Waiting for stage evidence; no eligible automatic action is available.");
        },
        _ => panic!("expected a report"),
    }
    let manual = vec![offered("approve_production", "ready", "h0", "wi-1")];
    match advance_step(false, false, "active", false, &manual, None, &all_authorized()).ok().unwrap() {
        AdvanceStep::Report(c) => assert_eq!(c.1, "approve_production summary"),
        _ => panic!("expected a report"),
    }
}

#[test]
fn operations_lock_their_resources() {
    assert_eq!(operation_resource_keys("start_planner", "repo-1"), vec!["coding", "repository:repo-1"]);
    assert_eq!(operation_resource_keys("continue_stage", "repo-1"), vec!["coding", "repository:repo-1"]);
    assert_eq!(operation_resource_keys("authorize_source_delivery", "repo-1"), vec!["repository:repo-1"]);
    assert!(operation_resource_keys("approve_work_plan", "repo-1").is_empty());
    assert_eq!(operation_id("sha256:abc"), "workflowop_abc");
    assert_eq!(operation_id("sha256:sha256:abc"), "workflowop_abc");
    assert_eq!(operation_id("plain"), "workflowop_plain");
}

fn operation(action: &str, hash: &str) -> WorkflowOperation {
    WorkflowOperation {
        id: "op-1".to_string(),
        action: action.to_string(),
        status: "pending".to_string(),
        input_hash: hash.to_string(),
    }
}

#[test]
fn inactive_pending_operations_are_released() {
    let actions = vec![offered("start_planner", "ready", "h1", "wi-1")];
    match pending_operation_step("paused", false, &operation("start_planner", "h1"), &actions, None).ok().unwrap() {
        PendingStep::Release(c) => {
            assert_eq!(c.0, "paused");
            assert_eq!(c.1, "The recorded operation has not been dispatched.");
        },
        _ => panic!("expected a release"),
    }
    match pending_operation_step("active", true, &operation("start_planner", "h1"), &actions, None).ok().unwrap() {
        PendingStep::Release(c) => assert_eq!(c.0, "active"),
        _ => panic!("expected a release"),
    }
}

#[test]
fn pending_operations_resume_only_on_unchanged_state() {
    let actions = vec![offered("start_planner", "ready", "h1", "wi-1")];
    match pending_operation_step("active", false, &operation("start_planner", "h1"), &actions, None).ok().unwrap() {
        PendingStep::Resume { resource } => assert_eq!(resource, "wi-1"),
        _ => panic!("expected a resume"),
    }
    let error = pending_operation_step("active", false, &operation("start_planner", "h2"), &actions, None).err().unwrap();
    assert_eq!(error.kind, ErrorKind::Conflict);
    assert_eq!(error.message, "the pending action is stale");
    let continuation = ContinuationMaterial { run_id: "run-7".to_string(), material_hash: "m7".to_string() };
    match pending_operation_step("active", false, &operation("continue_stage", "m7"), &actions, Some(&continuation)).ok().unwrap() {
        PendingStep::Resume { resource } => assert_eq!(resource, "run-7"),
        _ => panic!("expected a resume"),
    }
    let error = pending_operation_step("active", false, &operation("continue_stage", "m8"), &actions, Some(&continuation)).err().unwrap();
    assert_eq!(error.message, "the pending continuation is stale");
}

#[test]
fn approval_operations_report_their_state() {
    let c = approval_operation_condition(true);
    assert_eq!(c.0, "progressing");
    let c = approval_operation_condition(false);
    assert_eq!(c.0, "blocked");
    assert_eq!(c.1, "The approval operation has incomplete state; no duplicate decision was applied.");
}

fn refs_for(run_id: &str) -> JsonValue {
    JsonValue::Object(vec![("run_id".to_string(), JsonValue::Str(run_id.to_string()))])
}

fn observed_run(id: &str, status: &str) -> ObservedRun {
    ObservedRun {
        id: id.to_string(),
        status: status.to_string(),
        turns_used: 0,
        tokens_used: 0,
        execution_target: JsonValue::Null,
    }
}

#[test]
fn dispatched_operation_without_a_unique_run_is_blocked() {
    let runs: Vec<ObservedRun> = vec![];
    let stages: Vec<ObservedStage> = vec![];
    match dispatched_operation_step(refs_for("run-1"), &runs, &stages, None, "active", false, false) {
        Ok(DispatchedStep::Blocked(c)) => assert_eq!(c.0, "blocked"),
        _ => panic!("expected a blocked step"),
    }
}

#[test]
fn refs_are_plain_json() {
    assert!(json_equal(&refs_for("a"), &refs_for("a")));
    assert!(!json_equal(&refs_for("a"), &refs_for("b")));
}
