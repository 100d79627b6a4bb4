use pharness_api::deployment::{
    argo_execution_step, argo_sync_outcome_result, deployment_contract_spec, deployment_gate_kinds,
    deployment_intent_evidence_status, deployment_target, validate_deployment_contract_spec,
    validate_deployment_contract_target, validate_deployment_contract_transition,
    validate_deployment_intent_transition, validate_protected_production_deployment_contract, ArgoExecutionStep,
    ArgoSyncOutcomeRequest, StoredDeploymentIntent, VerificationRequirement,
};
use pharness_api::error::ErrorKind;
use pharness_api::json::{json_equal, JsonNumber, JsonValue};

fn s(text: &str) -> JsonValue {
    JsonValue::Str(text.to_string())
}

fn obj(entries: Vec<(&str, JsonValue)>) -> JsonValue {
    JsonValue::Object(entries.into_iter().map(|(k, v)| (k.to_string(), v)).collect())
}

#[test]
fn rejected_intents_stay_rejected() {
    assert!(validate_deployment_intent_transition("proposed", "approved").is_ok());
    assert!(validate_deployment_intent_transition("proposed", "rejected").is_ok());
    assert!(validate_deployment_intent_transition("approved", "rejected").is_ok());
    assert!(validate_deployment_intent_transition("proposed", "proposed").is_ok());
    for target in ["proposed", "approved", "rejected", "applied"] {
        let error = validate_deployment_intent_transition("rejected", target).unwrap_err();
        assert_eq!(error.kind, ErrorKind::Conflict);
        assert_eq!(error.message, format!("cannot transition deployment intent from rejected to {target}"));
    }
    assert!(validate_deployment_intent_transition("approved", "proposed").is_err());
}

#[test]
fn contracts_only_retire_from_active() {
    assert!(validate_deployment_contract_transition("active", "retired").is_ok());
    assert_eq!(validate_deployment_contract_transition("retired", "active").unwrap_err().kind, ErrorKind::Conflict);
    assert!(validate_deployment_contract_transition("active", "active").is_err());
}

fn protected_contract() -> JsonValue {
    obj(vec![
        ("operation", s("sync")),
        ("workload_kind", s("Deployment")),
        ("workload_name", s("yfinance-wrapper")),
        ("service_name", s("yfinance-wrapper")),
        ("service_port", JsonValue::Number(JsonNumber::PosInt(8090))),
        ("health_path", s("/healthz")),
        ("post_sync_verification", obj(vec![("service_healthz", s("required"))])),
    ])
}

#[test]
fn contract_documents_are_parsed_strictly() {
    let contract = deployment_contract_spec(&protected_contract()).ok().unwrap();
    assert_eq!(contract.operation, "sync");
    assert!(!contract.prune);
    assert_eq!(contract.service_port, Some(8090));
    assert_eq!(contract.post_sync_verification.service_healthz, VerificationRequirement::Required);
    assert_eq!(contract.post_sync_verification.prometheus_inventory, VerificationRequirement::Disabled);
    assert!(validate_deployment_contract_spec(&contract).is_ok());
    assert!(validate_protected_production_deployment_contract(&contract).is_ok());

    let unknown = obj(vec![("operation", s("sync")), ("replicas", JsonValue::Number(JsonNumber::PosInt(3)))]);
    assert_eq!(deployment_contract_spec(&unknown).err().unwrap().kind, ErrorKind::BadRequest);
    let bad_port = obj(vec![("operation", s("sync")), ("service_port", JsonValue::Number(JsonNumber::PosInt(70_000)))]);
    assert!(deployment_contract_spec(&bad_port).is_err());

    let pruning = deployment_contract_spec(&obj(vec![("operation", s("sync")), ("prune", JsonValue::Bool(true))])).ok().unwrap();
    assert_eq!(
        validate_deployment_contract_spec(&pruning).unwrap_err().message,
        "deployment contract prune and force must remain false"
    );
    let replace = deployment_contract_spec(&obj(vec![("operation", s("replace"))])).ok().unwrap();
    assert_eq!(validate_deployment_contract_spec(&replace).unwrap_err().message, "deployment contract operation must be sync");
    assert!(validate_protected_production_deployment_contract(&replace).is_err());
}

#[test]
fn protected_targets_need_the_protected_contract() {
    let protected = deployment_contract_spec(&protected_contract()).ok().unwrap();
    let plain = deployment_contract_spec(&obj(vec![("operation", s("sync"))])).ok().unwrap();
    assert!(validate_deployment_contract_target("dev", "web-dev", "web-dev", &plain).is_ok());
    assert!(validate_deployment_contract_target("production", "apps-prod", "yfinance-wrapper", &protected).is_ok());
    let error = validate_deployment_contract_target("production", "apps-prod", "yfinance-wrapper", &plain).unwrap_err();
    assert_eq!(error.kind, ErrorKind::BadRequest);
    assert!(validate_deployment_contract_target("production", "finance", "yfinance-wrapper", &protected).is_err());
    assert!(validate_deployment_contract_target("dev", "apps-prod", "web", &protected).is_err());
}

#[test]
fn deployment_targets_need_all_coordinates() {
    let mut intent = StoredDeploymentIntent {
        id: "di-1".to_string(),
        status: "approved".to_string(),
        pipeline_intent_id: "pi-1".to_string(),
        change_set_id: "cs-1".to_string(),
        work_plan_id: "wp-1".to_string(),
        run_id: None,
        target_environment: Some("dev".to_string()),
        target_namespace: Some("web-dev".to_string()),
        argo_application: Some("web-dev".to_string()),
    };
    let target = deployment_target(&intent).ok().unwrap();
    assert_eq!(target.environment, "dev");
    assert_eq!(target.application, "web-dev");
    intent.argo_application = None;
    let error = deployment_target(&intent).err().unwrap();
    assert_eq!(error.kind, ErrorKind::Conflict);
    assert_eq!(error.message, "DeploymentIntent argo_application is required for Argo preflight");
    intent.target_namespace = None;
    assert_eq!(
        deployment_target(&intent).err().unwrap().message,
        "DeploymentIntent target_namespace is required for Argo preflight"
    );
}

#[test]
fn evidence_status_needs_synced_and_healthy() {
    let both = obj(vec![(
        "status",
        obj(vec![
            ("sync", obj(vec![("status", s("Synced"))])),
            ("health", obj(vec![("status", s("Healthy"))])),
        ]),
    )]);
    assert_eq!(deployment_intent_evidence_status(&both), "satisfied");
    let degraded = obj(vec![(
        "status",
        obj(vec![
            ("sync", obj(vec![("status", s("Synced"))])),
            ("health", obj(vec![("status", s("Degraded"))])),
        ]),
    )]);
    assert_eq!(deployment_intent_evidence_status(&degraded), "attention_required");
    let only_sync = obj(vec![("status", obj(vec![("sync", obj(vec![("status", s("Synced"))]))]))]);
    assert_eq!(deployment_intent_evidence_status(&only_sync), "unknown");
    assert_eq!(deployment_intent_evidence_status(&obj(vec![])), "unknown");
}

fn outcome(status: &str) -> ArgoSyncOutcomeRequest {
    ArgoSyncOutcomeRequest {
        execution_id: "argo-1".to_string(),
        status: status.to_string(),
        sync_status: Some(" Synced ".to_string()),
        health_status: Some("Healthy".to_string()),
        operation_phase: Some("Succeeded".to_string()),
        revision: Some("abc".to_string()),
        error_code: None,
    }
}

#[test]
fn argo_outcomes_are_classified() {
    let (status, result) = argo_sync_outcome_result(outcome("completed")).ok().unwrap();
    assert_eq!(status, "completed");
    let expected = obj(vec![
        ("sync_status", s("Synced")),
        ("health_status", s("Healthy")),
        ("operation_phase", s("Succeeded")),
        ("revision", s("abc")),
    ]);
    assert!(json_equal(&result, &expected));

    let mut unsynced = outcome("completed");
    unsynced.operation_phase = Some("Running".to_string());
    assert!(argo_sync_outcome_result(unsynced).is_err());

    let mut failed = outcome("failed");
    failed.error_code = Some("bad code!".to_string());
    let (status, result) = argo_sync_outcome_result(failed).ok().unwrap();
    assert_eq!(status, "failed");
    match &result {
        JsonValue::Object(entries) => {
            assert_eq!(entries[0].0, "error_code");
            assert!(json_equal(&entries[0].1, &s("argo_sync_failed")));
        },
        _ => panic!("expected an object"),
    }
    let (_, cancelled) = argo_sync_outcome_result(outcome("cancelled")).ok().unwrap();
    match &cancelled {
        JsonValue::Object(entries) => assert!(json_equal(&entries[0].1, &s("cancelled"))),
        _ => panic!("expected an object"),
    }
    let (status, result) = argo_sync_outcome_result(outcome("submitted")).ok().unwrap();
    assert_eq!(status, "submitted");
    assert!(json_equal(&result, &obj(vec![])));
    assert!(argo_sync_outcome_result(outcome("exploded")).is_err());
}

#[test]
fn argo_execution_dispatches_only_when_ready_with_a_reason() {
    match argo_execution_step(true, true, true, None).ok().unwrap() {
        ArgoExecutionStep::Report { status, ready } => {
            assert_eq!(status, "ready");
            assert!(ready);
        },
        _ => panic!("expected a report"),
    }
    match argo_execution_step(true, false, false, Some("go".to_string())).ok().unwrap() {
        ArgoExecutionStep::Report { status, ready } => {
            assert_eq!(status, "blocked");
            assert!(!ready);
        },
        _ => panic!("expected a report"),
    }
    match argo_execution_step(true, true, false, Some("  deploy release 3 ".to_string())).ok().unwrap() {
        ArgoExecutionStep::Dispatch { reason } => assert_eq!(reason, "deploy release 3"),
        _ => panic!("expected a dispatch"),
    }
    assert_eq!(argo_execution_step(true, true, false, Some("   ".to_string())).err().unwrap().kind, ErrorKind::BadRequest);
}

#[test]
fn production_deployments_need_three_gates() {
    assert_eq!(deployment_gate_kinds(false), vec!["cluster_mutation"]);
    assert_eq!(
        deployment_gate_kinds(true),
        vec!["cluster_mutation", "production_impact", "production_deployment"]
    );
}
