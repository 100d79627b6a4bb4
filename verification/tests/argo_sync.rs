use pharness_api::argo_sync::{
    argo_sync_revision, check_argo_sync_context, delivery_result_content, dispatch_failure_details, existing_sync_result,
    sync_dispatch_content, sync_dispatch_failed_audit, sync_dispatched_audit, sync_execution_content, sync_result_content,
};
use pharness_api::deployment::DeploymentTarget;
use pharness_api::artifacts::StoredArtifact;
use pharness_api::error::ErrorKind;
use pharness_api::json::{json_equal, JsonValue};

fn s(t: &str) -> JsonValue {
    JsonValue::Str(t.to_string())
}

fn obj(members: Vec<(&str, JsonValue)>) -> JsonValue {
    JsonValue::Object(members.into_iter().map(|(k, v)| (k.to_string(), v)).collect())
}

fn artifact(id: &str, kind: &str, content: JsonValue) -> StoredArtifact {
    StoredArtifact {
        id: id.to_string(),
        kind: kind.to_string(),
        run_id: Some("run-1".to_string()),
        created_at: "2024-01-01T00:00:00Z".to_string(),
        content_json: Some(content),
    }
}

const SHA: &str = "0123456789abcdef0123456789abcdef01234567";

#[test]
fn sync_context_requires_the_current_contract_grant_and_merge() {
    let content = obj(vec![
        ("deployment_contract_id", s("dc-1")),
        ("permission_grant_id", s("pg-1")),
        ("gitops_delivery_merge_artifact_id", s("m-1")),
    ]);
    assert!(check_argo_sync_context(true, true, Some(&content), Some("dc-1"), Some("pg-1"), Some("m-1")).is_ok());
    let e = check_argo_sync_context(false, true, Some(&content), Some("dc-1"), Some("pg-1"), Some("m-1")).err().unwrap();
    assert_eq!(e.kind, ErrorKind::Conflict);
    assert_eq!(e.message, "Argo sync context is no longer authorized or the executor is unavailable");
    let e = check_argo_sync_context(true, true, Some(&s("x")), None, None, None).err().unwrap();
    assert_eq!(e.message, "Argo sync execution has no structured content");
    let e = check_argo_sync_context(true, true, Some(&content), Some("dc-2"), Some("pg-1"), Some("m-1")).err().unwrap();
    assert_eq!(e.message, "Argo sync execution is stale relative to its contract or permission grant");
    let e = check_argo_sync_context(true, true, Some(&content), Some("dc-1"), Some("pg-1"), None).err().unwrap();
    assert_eq!(e.message, "Argo sync execution is stale relative to its observed GitOps merge");
    assert!(check_argo_sync_context(true, true, Some(&obj(vec![])), None, None, None).is_ok());
}

#[test]
fn sync_revision_is_the_merge_commit() {
    let merge = artifact("m-1", "gitops_delivery_merge", obj(vec![("merge_commit_sha", s(SHA))]));
    assert_eq!(argo_sync_revision(Some(&merge)), Some(SHA.to_string()));
    let bad = artifact("m-1", "gitops_delivery_merge", obj(vec![("merge_commit_sha", s("main"))]));
    assert_eq!(argo_sync_revision(Some(&bad)), None);
    assert_eq!(argo_sync_revision(None), None);
}

#[test]
fn sync_results_are_recorded_once_per_status() {
    let artifacts = vec![
        artifact("a", "argo_sync_result", obj(vec![("execution_id", s("e1")), ("status", s("running"))])),
        artifact("b", "argo_sync_result", obj(vec![("execution_id", s("e1")), ("status", s("succeeded"))])),
        artifact("c", "argo_sync_execution", obj(vec![("execution_id", s("e1")), ("status", s("succeeded"))])),
    ];
    assert_eq!(existing_sync_result(&artifacts, "e1", "succeeded"), Some(1));
    assert_eq!(existing_sync_result(&artifacts, "e1", "failed"), None);
    assert_eq!(existing_sync_result(&artifacts, "e2", "running"), None);

    let content = sync_result_content("e1", "failed", "di-1", obj(vec![("reason", s("timeout"))]));
    let expected = obj(vec![
        ("deployment_intent_id", s("di-1")),
        ("details", obj(vec![("reason", s("timeout"))])),
        ("execution_id", s("e1")),
        ("status", s("failed")),
    ]);
    assert!(json_equal(&content, &expected));
    let content = delivery_result_content("e2", "completed", "gcs-1", "plan-1", JsonValue::Null);
    let expected = obj(vec![
        ("details", JsonValue::Null),
        ("execution_id", s("e2")),
        ("gitops_change_set_id", s("gcs-1")),
        ("gitops_delivery_plan_artifact_id", s("plan-1")),
        ("status", s("completed")),
    ]);
    assert!(json_equal(&content, &expected));
}

#[test]
fn sync_execution_records_its_binding_target_and_reason() {
    let merge = artifact("m-1", "gitops_delivery_merge", obj(vec![("merge_commit_sha", s(SHA))]));
    let target = DeploymentTarget {
        environment: "dev".to_string(),
        namespace: "web-dev".to_string(),
        application: "web-dev".to_string(),
    };
    let content = sync_execution_content("aexec-1", "di-1", "dc-1", "pg-1", Some(&merge), &target, Some("alice"), "ship it");
    let expected = obj(vec![
        ("deployment_contract_id", s("dc-1")),
        ("deployment_intent_id", s("di-1")),
        ("dispatched_by", s("alice")),
        ("execution_id", s("aexec-1")),
        ("gitops_delivery_merge_artifact_id", s("m-1")),
        ("gitops_merge_commit_sha", s(SHA)),
        ("permission_grant_id", s("pg-1")),
        ("reason", s("ship it")),
        ("status", s("dispatched")),
        (
            "target",
            obj(vec![("argo_application", s("web-dev")), ("environment", s("dev")), ("namespace", s("web-dev"))]),
        ),
    ]);
    assert!(json_equal(&content, &expected));
    let unbound = sync_execution_content("aexec-1", "di-1", "dc-1", "pg-1", None, &target, None, "ship it");
    assert!(json_equal(unbound.get("gitops_delivery_merge_artifact_id").unwrap(), &JsonValue::Null));
    assert!(json_equal(unbound.get("gitops_merge_commit_sha").unwrap(), &JsonValue::Null));
    assert!(json_equal(unbound.get("dispatched_by").unwrap(), &JsonValue::Null));
}

#[test]
fn sync_dispatch_documents_name_the_job_and_records() {
    let merge = artifact("m-1", "gitops_delivery_merge", obj(vec![]));
    let dispatch = sync_dispatch_content("aexec-1", "art-exec", "di-1", "job-1");
    assert!(json_equal(
        &dispatch,
        &obj(vec![
            ("argo_sync_execution_artifact_id", s("art-exec")),
            ("deployment_intent_id", s("di-1")),
            ("execution_id", s("aexec-1")),
            ("executor_job_name", s("job-1")),
        ])
    ));
    let audit = sync_dispatched_audit("aexec-1", "art-exec", "art-dispatch", "job-1", "dc-1", "pg-1", Some(&merge));
    assert_eq!(audit.get("dispatch_artifact_id").unwrap().as_str(), Some("art-dispatch"));
    assert_eq!(audit.get("gitops_delivery_merge_artifact_id").unwrap().as_str(), Some("m-1"));
    let failed = sync_dispatch_failed_audit("aexec-1", "art-exec", "art-result", None);
    assert_eq!(failed.get("error_code").unwrap().as_str(), Some("job_dispatch_failed"));
    assert_eq!(failed.get("result_artifact_id").unwrap().as_str(), Some("art-result"));
    assert!(json_equal(failed.get("gitops_delivery_merge_artifact_id").unwrap(), &JsonValue::Null));
    assert!(json_equal(&dispatch_failure_details(), &obj(vec![("error_code", s("job_dispatch_failed"))])));
}
