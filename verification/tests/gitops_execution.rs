use pharness_api::artifacts::StoredArtifact;
use pharness_api::error::ErrorKind;
use pharness_api::gitops::StoredGitOpsChangeSet;
use pharness_api::gitops_execution::{
    admit_base_revision_resolution, admit_delivery_execution, base_revision_outcome_content,
    completed_delivery_result, ensure_allowlisted, execution_status, pull_request_provenance, required_reason,
};
use pharness_api::json::{json_equal, JsonNumber, JsonValue};

fn s(text: &str) -> JsonValue {
    JsonValue::Str(text.to_string())
}

fn obj(entries: Vec<(&str, JsonValue)>) -> JsonValue {
    JsonValue::Object(entries.into_iter().map(|(k, v)| (k.to_string(), v)).collect())
}

fn member<'a>(value: &'a JsonValue, key: &str) -> Option<&'a JsonValue> {
    match value {
        JsonValue::Object(entries) => entries.iter().rev().find(|(k, _)| k == key).map(|(_, v)| v),
        _ => None,
    }
}

fn change_set(status: &str) -> StoredGitOpsChangeSet {
    StoredGitOpsChangeSet {
        id: "gcs-1".to_string(),
        work_item_id: "wi-1".to_string(),
        work_plan_id: "wp-1".to_string(),
        source_change_set_id: "cs-1".to_string(),
        pipeline_intent_id: "pi-1".to_string(),
        deployment_intent_id: "di-1".to_string(),
        run_id: "run-1".to_string(),
        status: status.to_string(),
        revision: 2,
        material_hash: "sha256:material".to_string(),
        gitops_repo: "example/gitops".to_string(),
        gitops_ref: "main".to_string(),
        head_branch: "pharness/gcs-1".to_string(),
        kustomization_path: "apps/web".to_string(),
        image_name: "registry/web".to_string(),
        image_ref: "registry/web@sha256:abc".to_string(),
        gitops_change_set_json: obj(vec![]),
    }
}

fn artifact(id: &str, kind: &str, created_at: &str, content: JsonValue) -> StoredArtifact {
    StoredArtifact {
        id: id.to_string(),
        kind: kind.to_string(),
        run_id: None,
        created_at: created_at.to_string(),
        content_json: Some(content),
    }
}

const SHA: &str = "0123456789abcdef0123456789abcdef01234567";

#[test]
fn execution_status_is_the_first_reported_one() {
    let artifacts = vec![
        artifact("a", "other", "1", obj(vec![("execution_id", s("ex-1")), ("status", s("ignored"))])),
        artifact("b", "gitops_delivery_result", "2", obj(vec![("execution_id", s("ex-2")), ("status", s("failed"))])),
        artifact("c", "gitops_delivery_result", "3", obj(vec![("execution_id", s("ex-1")), ("status", s("completed"))])),
        artifact("d", "gitops_delivery_result", "4", obj(vec![("execution_id", s("ex-1")), ("status", s("failed"))])),
    ];
    assert_eq!(execution_status(&artifacts, "gitops_delivery_result", "ex-1").as_deref(), Some("completed"));
    assert_eq!(execution_status(&artifacts, "gitops_delivery_result", "ex-3"), None);
}

#[test]
fn observation_needs_a_completed_delivery_result() {
    let artifacts = vec![
        artifact("r1", "gitops_delivery_result", "2024-01-01", obj(vec![("gitops_delivery_plan_artifact_id", s("plan-1")), ("status", s("completed"))])),
        artifact("r2", "gitops_delivery_result", "2024-01-02", obj(vec![("gitops_delivery_plan_artifact_id", s("plan-1")), ("status", s("completed"))])),
        artifact("r3", "gitops_delivery_result", "2024-01-03", obj(vec![("gitops_delivery_plan_artifact_id", s("plan-1")), ("status", s("failed"))])),
    ];
    assert_eq!(completed_delivery_result(&artifacts, "plan-1").unwrap(), 1);
    let error = completed_delivery_result(&artifacts, "plan-2").unwrap_err();
    assert_eq!(error.kind, ErrorKind::Conflict);
    assert_eq!(error.message, "GitOps delivery observation requires a completed branch-and-PR result");
}

#[test]
fn pull_request_provenance_is_read_from_the_result_details() {
    let result = obj(vec![(
        "details",
        obj(vec![
            ("pull_request_number", JsonValue::Number(JsonNumber::PosInt(42))),
            ("pull_request_url", s("https://github.com/example/gitops/pull/42")),
            ("commit_sha", s(SHA)),
        ]),
    )]);
    let provenance = pull_request_provenance(Some(&result), true).ok().unwrap();
    assert_eq!(provenance.number, 42);
    assert_eq!(provenance.commit_sha, SHA);
    assert_eq!(
        pull_request_provenance(Some(&result), false).err().unwrap().message,
        "GitOps delivery result has invalid GitHub provenance"
    );
    assert_eq!(
        pull_request_provenance(None, true).err().unwrap().message,
        "GitOps delivery result has no pull-request provenance"
    );
    let no_number = obj(vec![("details", obj(vec![("commit_sha", s(SHA))]))]);
    assert_eq!(
        pull_request_provenance(Some(&no_number), true).err().unwrap().message,
        "GitOps delivery result has no pull-request number"
    );
}

#[test]
fn executors_must_be_configured_and_allowlisted() {
    let repos = vec!["example/gitops".to_string()];
    assert!(ensure_allowlisted(Some(&repos), "example/gitops", "missing", "refused").is_ok());
    assert_eq!(ensure_allowlisted(None, "example/gitops", "missing", "refused").unwrap_err().message, "missing");
    assert_eq!(ensure_allowlisted(Some(&repos), "example/other", "missing", "refused").unwrap_err().message, "refused");
}

#[test]
fn reasons_are_trimmed_and_required() {
    assert_eq!(required_reason(Some("  resolve base  ".to_string()), "reason is required").unwrap(), "resolve base");
    let error = required_reason(Some("   ".to_string()), "reason is required").unwrap_err();
    assert_eq!(error.kind, ErrorKind::BadRequest);
    assert_eq!(error.message, "reason is required");
    assert!(required_reason(None, "reason is required").is_err());
}

#[test]
fn base_revision_resolution_is_admitted_for_open_change_sets() {
    let repos = vec!["example/gitops".to_string()];
    assert_eq!(admit_base_revision_resolution(&change_set("approved"), Some(&repos), Some("why".to_string())).unwrap(), "why");
    let error = admit_base_revision_resolution(&change_set("applied"), Some(&repos), Some("why".to_string())).unwrap_err();
    assert_eq!(error.message, "GitOps base revision resolution requires a proposed or approved GitOps ChangeSet");
    let error = admit_base_revision_resolution(&change_set("proposed"), Some(&repos), None).unwrap_err();
    assert_eq!(error.kind, ErrorKind::BadRequest);
    assert_eq!(error.message, "reason is required");
    assert_eq!(
        admit_base_revision_resolution(&change_set("proposed"), None, Some("why".to_string())).unwrap_err().kind,
        ErrorKind::Conflict
    );
}

#[test]
fn delivery_execution_needs_a_ready_preflight_and_grant() {
    assert!(admit_delivery_execution("ready_for_writer", true, true).is_ok());
    assert!(admit_delivery_execution("blocked", true, true).is_err());
    assert!(admit_delivery_execution("ready_for_writer", false, true).is_err());
    assert_eq!(admit_delivery_execution("ready_for_writer", true, false).unwrap_err().kind, ErrorKind::Conflict);
}

#[test]
fn base_revision_outcomes_are_recorded_exactly() {
    let cs = change_set("approved");
    let resolved = base_revision_outcome_content("resolved", Some(SHA.to_string()), None, "ex-1", &cs, "art-1").unwrap();
    assert!(json_equal(member(&resolved, "status").unwrap(), &s("resolved")));
    assert!(json_equal(member(&resolved, "base_commit").unwrap(), &s(SHA)));
    assert!(json_equal(member(&resolved, "gitops_change_set_revision").unwrap(), &JsonValue::Number(JsonNumber::PosInt(2))));
    assert!(json_equal(member(&resolved, "identity").unwrap(), &s("agent:git-observer")));
    assert_eq!(
        base_revision_outcome_content("resolved", Some("abc".to_string()), None, "ex-1", &cs, "art-1").err().unwrap().message,
        "resolved base revision outcome requires a 40-character Git SHA"
    );
    assert_eq!(
        base_revision_outcome_content("resolved", None, None, "ex-1", &cs, "art-1").err().unwrap().message,
        "resolved base revision outcome requires base_commit"
    );
    let failed = base_revision_outcome_content("failed", None, None, "ex-1", &cs, "art-1").unwrap();
    assert!(json_equal(member(&failed, "error_code").unwrap(), &s("gitops_revision_resolver_failed")));
    assert_eq!(
        base_revision_outcome_content("pending", None, None, "ex-1", &cs, "art-1").err().unwrap().message,
        "GitOps base revision outcome status must be resolved or failed"
    );
}
