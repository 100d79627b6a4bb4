use pharness_api::artifacts::StoredArtifact;
use pharness_api::error::ErrorKind;
use pharness_api::gitops::{gitops_delivery_plan_matches_change_set, StoredGitOpsChangeSet, StoredWorkItem};
use pharness_api::gitops_delivery::{
    delivery_preflight_audit, delivery_preflight_content, existing_delivery_preflight, gitops_delivery_plan_source,
    gitops_delivery_preflight, ApprovalGateRef,
};
use pharness_api::gitops_outcomes::{
    delivery_outcome_details, observation_outcome_records, DeliveryOutcomeRequest, ObservationIds,
    ObservationOutcomeRequest,
};
use pharness_api::gitops_planning::{delivery_grant_scope, delivery_plan_content};
use pharness_api::grants::{
    delivery_grant_matches, deployment_grant_matches, first_delivery_grant, trusted_envelope_scope,
    DeliveryGrantTarget, DeploymentGrantTarget, PermissionGrant, ProductionBinding,
};
use pharness_api::json::{json_equal, JsonValue};

const BASE: &str = "0123456789abcdef0123456789abcdef01234567";
const HEAD: &str = "89abcdef0123456789abcdef0123456789abcdef";
const MERGE: &str = "fedcba9876543210fedcba9876543210fedcba98";

fn s(text: &str) -> JsonValue {
    JsonValue::Str(text.to_string())
}

fn obj(entries: Vec<(&str, JsonValue)>) -> JsonValue {
    JsonValue::Object(entries.into_iter().map(|(k, v)| (k.to_string(), v)).collect())
}

fn member<'a>(value: &'a JsonValue, key: &str) -> Option<&'a JsonValue> {
    match value {
        JsonValue::Object(entries) => entries.iter().rev().find(|(k, _)| k == key).map(|(_, v)| v),
        _ => None,
    }
}

fn change_set() -> StoredGitOpsChangeSet {
    StoredGitOpsChangeSet {
        id: "gcs-1".to_string(),
        work_item_id: "wi-1".to_string(),
        work_plan_id: "wp-1".to_string(),
        source_change_set_id: "cs-1".to_string(),
        pipeline_intent_id: "pi-1".to_string(),
        deployment_intent_id: "di-1".to_string(),
        run_id: "run-1".to_string(),
        status: "approved".to_string(),
        revision: 3,
        material_hash: "sha256:material".to_string(),
        gitops_repo: "example/gitops".to_string(),
        gitops_ref: "main".to_string(),
        head_branch: "pharness/gcs-1".to_string(),
        kustomization_path: "apps/web/overlays/dev".to_string(),
        image_name: "registry.example/web".to_string(),
        image_ref: "registry.example/web@sha256:abc".to_string(),
        gitops_change_set_json: obj(vec![]),
    }
}

fn work_item() -> StoredWorkItem {
    StoredWorkItem {
        id: "wi-1".to_string(),
        target_environment: "dev".to_string(),
        target_namespace: Some("web-dev".to_string()),
        argo_application: Some("web-dev".to_string()),
        gitops_repo: Some("example/gitops".to_string()),
        gitops_ref: Some("main".to_string()),
        production_impacting: false,
    }
}

fn plan_artifact(cs: &StoredGitOpsChangeSet) -> StoredArtifact {
    StoredArtifact {
        id: "plan-1".to_string(),
        kind: "gitops_delivery_plan".to_string(),
        run_id: Some("run-1".to_string()),
        created_at: "2024-01-01T00:00:00Z".to_string(),
        content_json: Some(delivery_plan_content(cs, BASE, "base-1")),
    }
}

#[test]
fn a_prepared_plan_is_accepted_for_its_change_set() {
    let cs = change_set();
    let plan = plan_artifact(&cs);
    assert!(gitops_delivery_plan_matches_change_set(&plan, &cs));
    let source = gitops_delivery_plan_source(&plan, &cs).ok().unwrap();
    assert_eq!(source.base_commit, BASE);
    assert_eq!(source.head_branch, "pharness/gcs-1");
    let content = plan.content_json.as_ref().unwrap();
    assert!(json_equal(member(content, "operation").unwrap(), &s("branch_and_pull_request")));
}

fn delivery_target() -> DeliveryGrantTarget {
    DeliveryGrantTarget {
        subject: "agent:gitops-writer".to_string(),
        plan_artifact_id: "plan-1".to_string(),
        delivery_actions: vec!["git_push_branch".to_string(), "github_open_pull_request".to_string()],
    }
}

#[test]
fn a_delivery_grant_scoped_to_the_plan_matches_it() {
    let cs = change_set();
    let wi = work_item();
    let t = delivery_target();
    let grant = PermissionGrant {
        id: "grant-1".to_string(),
        subject: "agent:gitops-writer".to_string(),
        supervised_autonomy: true,
        unexpired: true,
        scope: delivery_grant_scope(&t, &cs, &wi),
    };
    assert!(delivery_grant_matches(&grant, &t, &cs, &wi));
    let mut expired = PermissionGrant {
        id: "grant-0".to_string(),
        subject: "agent:gitops-writer".to_string(),
        supervised_autonomy: true,
        unexpired: false,
        scope: delivery_grant_scope(&t, &cs, &wi),
    };
    assert!(!delivery_grant_matches(&expired, &t, &cs, &wi));
    let mut other_plan = delivery_target();
    other_plan.plan_artifact_id = "plan-2".to_string();
    assert!(!delivery_grant_matches(&grant, &other_plan, &cs, &wi));
    expired.unexpired = true;
    expired.subject = "agent:someone-else".to_string();
    let grants = vec![expired, grant];
    assert_eq!(first_delivery_grant(&grants, &t, &cs, &wi), Some(1));
}

fn deployment_target(production: bool) -> DeploymentGrantTarget {
    DeploymentGrantTarget {
        runner_subject: "agent:argo-runner".to_string(),
        environment: if production { "production" } else { "dev" }.to_string(),
        namespace: "web".to_string(),
        application: "web".to_string(),
        work_plan_id: "wp-1".to_string(),
        change_set_id: "cs-1".to_string(),
        pipeline_intent_id: "pi-1".to_string(),
        deployment_intent_id: "di-1".to_string(),
        work_item_id: "wi-1".to_string(),
        production_impacting: production,
        pipeline_contract_id: Some("pc-1".to_string()),
        deployment_contract_id: Some("dc-1".to_string()),
    }
}

#[test]
fn the_trusted_envelope_grant_matches_its_deployment() {
    let actions = vec!["argocd_sync".to_string()];
    let t = deployment_target(false);
    let grant = PermissionGrant {
        id: "grant-env".to_string(),
        subject: t.runner_subject.clone(),
        supervised_autonomy: true,
        unexpired: true,
        scope: trusted_envelope_scope(&t, None, &actions),
    };
    assert!(deployment_grant_matches(&grant, &t, None));

    let production = deployment_target(true);
    let binding = ProductionBinding {
        source_merge_sha: BASE.to_string(),
        gitops_merge_sha: MERGE.to_string(),
        image_digest: "sha256:abc".to_string(),
    };
    let grant = PermissionGrant {
        id: "grant-prod".to_string(),
        subject: production.runner_subject.clone(),
        supervised_autonomy: true,
        unexpired: true,
        scope: trusted_envelope_scope(&production, Some(&binding), &actions),
    };
    assert!(deployment_grant_matches(&grant, &production, Some(&binding)));
    let other_binding = ProductionBinding {
        source_merge_sha: HEAD.to_string(),
        gitops_merge_sha: MERGE.to_string(),
        image_digest: "sha256:abc".to_string(),
    };
    assert!(!deployment_grant_matches(&grant, &production, Some(&other_binding)));
}

fn completed(url: &str, number: u64) -> DeliveryOutcomeRequest {
    DeliveryOutcomeRequest {
        status: "completed".to_string(),
        branch: Some("pharness/gcs-1".to_string()),
        commit_sha: Some(HEAD.to_string()),
        pull_request_url: Some(url.to_string()),
        pull_request_number: Some(number),
        error_code: None,
    }
}

#[test]
fn writer_outcomes_must_name_the_planned_pull_request() {
    let cs = change_set();
    let plan = plan_artifact(&cs);
    let (done, details) = delivery_outcome_details(completed("https://github.com/example/gitops/pull/7", 7), &plan, &cs, true).ok().unwrap();
    assert!(done);
    assert!(json_equal(member(&details, "branch").unwrap(), &s("pharness/gcs-1")));
    let error = delivery_outcome_details(completed("https://github.com/example/gitops/pull/8", 7), &plan, &cs, true).err().unwrap();
    assert_eq!(error.kind, ErrorKind::Conflict);
    let error = delivery_outcome_details(completed("https://github.com/other/repo/pull/7", 7), &plan, &cs, true).err().unwrap();
    assert_eq!(error.kind, ErrorKind::Conflict);
    let mut missing = completed("https://github.com/example/gitops/pull/7", 7);
    missing.commit_sha = None;
    assert_eq!(delivery_outcome_details(missing, &plan, &cs, true).err().unwrap().kind, ErrorKind::BadRequest);
    let failed = DeliveryOutcomeRequest {
        status: "failed".to_string(),
        branch: None,
        commit_sha: None,
        pull_request_url: None,
        pull_request_number: None,
        error_code: None,
    };
    let (done, details) = delivery_outcome_details(failed, &plan, &cs, true).ok().unwrap();
    assert!(!done);
    assert!(json_equal(member(&details, "error_code").unwrap(), &s("gitops_writer_failed")));
}

fn ids() -> ObservationIds {
    ObservationIds {
        execution_id: "obs-1".to_string(),
        change_set_id: "gcs-1".to_string(),
        plan_id: "plan-1".to_string(),
    }
}

fn execution() -> JsonValue {
    obj(vec![(
        "source",
        obj(vec![
            ("head_branch", s("pharness/gcs-1")),
            ("source_commit_sha", s(HEAD)),
            ("pull_request_url", s("https://github.com/example/gitops/pull/7")),
        ]),
    )])
}

fn observed(state: &str, merged: bool, merge: Option<&str>) -> ObservationOutcomeRequest {
    ObservationOutcomeRequest {
        status: "observed".to_string(),
        pull_request_state: Some(state.to_string()),
        merged: Some(merged),
        head_branch: Some("pharness/gcs-1".to_string()),
        head_commit_sha: Some(HEAD.to_string()),
        merge_commit_sha: merge.map(str::to_string),
        error_code: None,
    }
}

#[test]
fn merges_are_recorded_only_for_merged_pull_requests() {
    let exec = execution();
    let (observation, merge) = observation_outcome_records(observed("closed", true, Some(MERGE)), &ids(), Some(&exec)).ok().unwrap();
    assert!(json_equal(member(&observation, "merged").unwrap(), &JsonValue::Bool(true)));
    let merge = merge.unwrap();
    assert!(json_equal(member(&merge, "merge_commit_sha").unwrap(), &s(MERGE)));
    assert!(json_equal(
        member(&merge, "pull_request_url").unwrap(),
        &s("https://github.com/example/gitops/pull/7")
    ));

    let (_, merge) = observation_outcome_records(observed("open", false, None), &ids(), Some(&exec)).ok().unwrap();
    assert!(merge.is_none());

    let error = observation_outcome_records(observed("open", true, Some(MERGE)), &ids(), Some(&exec)).err().unwrap();
    assert_eq!(error.message, "merged GitOps outcome has invalid merge provenance");
    let error = observation_outcome_records(observed("closed", false, Some(MERGE)), &ids(), Some(&exec)).err().unwrap();
    assert_eq!(error.message, "unmerged GitOps outcome must not include merge_commit_sha");
    let mut other_branch = observed("open", false, None);
    other_branch.head_branch = Some("main".to_string());
    let error = observation_outcome_records(other_branch, &ids(), Some(&exec)).err().unwrap();
    assert_eq!(error.kind, ErrorKind::Conflict);
    assert_eq!(error.message, "GitOps observation does not match the delivered branch commit");
    let error = observation_outcome_records(observed("open", false, None), &ids(), None).err().unwrap();
    assert_eq!(error.message, "GitOps observation execution has no source provenance");
}

const PREFLIGHT_BASE: &str = "0123456789abcdef0123456789abcdef01234567";

#[test]
fn a_ready_preflight_is_recorded_once_and_reused() {
    let cs = change_set();
    let gate = ApprovalGateRef { id: "gate-1".to_string(), status: "satisfied".to_string() };
    let repos = vec!["example/gitops".to_string()];
    let preflight = gitops_delivery_preflight(
        &cs,
        "approved",
        true,
        Some(PREFLIGHT_BASE),
        Some(&gate),
        Some("grant-1"),
        "agent:gitops-writer",
        Some(&repos),
    );
    assert_eq!(preflight.status, "ready_for_writer");
    assert!(preflight.approval_gate_ready && preflight.authorization_ready && preflight.dispatch_ready);
    assert_eq!(preflight.checks.len(), 7);
    assert!(preflight.checks.iter().all(|c| c.passed));

    let content = delivery_preflight_content(
        &cs,
        "plan-1",
        "base-1",
        "agent:gitops-writer",
        Some("grant-1"),
        Some(&gate),
        &preflight,
        Some("review"),
    );
    assert_eq!(member(&content, "status").unwrap().as_str(), Some("ready_for_writer"));
    assert_eq!(member(&content, "approval_gate_status").unwrap().as_str(), Some("satisfied"));
    assert_eq!(member(&content, "work_plan_id").unwrap().as_str(), Some("wp-1"));
    assert_eq!(member(member(&content, "dispatch").unwrap(), "state").unwrap().as_str(), Some("configured"));
    match member(&content, "checks").unwrap() {
        JsonValue::Array(items) => {
            assert_eq!(items.len(), 7);
            assert_eq!(member(&items[0], "code").unwrap().as_str(), Some("gitops_change_set_approved"));
        },
        _ => panic!("checks must be an array"),
    }

    let recorded = StoredArtifact {
        id: "pf-1".to_string(),
        kind: "gitops_delivery_preflight".to_string(),
        run_id: Some("run-1".to_string()),
        created_at: "2024-01-01T00:00:00Z".to_string(),
        content_json: Some(content),
    };
    let artifacts = vec![plan_artifact(&cs), recorded];
    assert_eq!(
        existing_delivery_preflight(&artifacts, "plan-1", "agent:gitops-writer", Some("grant-1"), Some(&gate)),
        Some(1)
    );
    let waived = ApprovalGateRef { id: "gate-1".to_string(), status: "waived".to_string() };
    assert_eq!(existing_delivery_preflight(&artifacts, "plan-1", "agent:gitops-writer", Some("grant-1"), Some(&waived)), None);
    assert_eq!(existing_delivery_preflight(&artifacts, "plan-1", "agent:gitops-writer", None, Some(&gate)), None);

    let audit = delivery_preflight_audit("plan-1", "pf-1", "agent:gitops-writer", Some("grant-1"), Some(&gate), &preflight);
    assert_eq!(member(&audit, "gitops_delivery_preflight_artifact_id").unwrap().as_str(), Some("pf-1"));
    assert!(json_equal(member(&audit, "approval_gate_ready").unwrap(), &JsonValue::Bool(true)));
}

#[test]
fn a_preflight_without_writer_is_blocked_only_by_its_prerequisites() {
    let cs = change_set();
    let preflight = gitops_delivery_preflight(&cs, "approved", true, Some(PREFLIGHT_BASE), None, None, "agent:gitops-writer", None);
    assert_eq!(preflight.status, "blocked");
    assert!(!preflight.dispatch_ready);
    let content = delivery_preflight_content(&cs, "plan-1", "base-1", "agent:gitops-writer", None, None, &preflight, None);
    assert_eq!(member(member(&content, "dispatch").unwrap(), "state").unwrap().as_str(), Some("not_configured"));
    assert!(json_equal(member(&content, "approval_gate_id").unwrap(), &JsonValue::Null));
    assert!(json_equal(member(&content, "reason").unwrap(), &JsonValue::Null));
}
