use pharness_api::artifacts::StoredArtifact;
use pharness_api::error::ErrorKind;
use pharness_api::gitops::StoredGitOpsChangeSet;
use pharness_api::gitops_flow::{
    check_deployment_change_set, check_deployment_merge, current_gitops_delivery_plan, declared_gitops_target,
    deployment_intent_delivery_flow, existing_change_set_step, gitops_change_set_document, gitops_change_set_summary,
    gitops_change_set_title, gitops_delivery_flow,
};
use pharness_api::json::json_equal;
use pharness_api::json::{JsonNumber, JsonValue};

fn s(text: &str) -> JsonValue {
    JsonValue::Str(text.to_string())
}

fn num(value: i64) -> JsonValue {
    if value >= 0 {
        JsonValue::Number(JsonNumber::PosInt(value as u64))
    } else {
        JsonValue::Number(JsonNumber::NegInt(value))
    }
}

fn obj(entries: Vec<(&str, JsonValue)>) -> JsonValue {
    JsonValue::Object(entries.into_iter().map(|(k, v)| (k.to_string(), v)).collect())
}

const BASE_COMMIT: &str = "0123456789abcdef0123456789abcdef01234567";

fn change_set(status: &str) -> StoredGitOpsChangeSet {
    StoredGitOpsChangeSet {
        id: "gcs-1".to_string(),
        work_item_id: "wi-1".to_string(),
        work_plan_id: "wp-1".to_string(),
        source_change_set_id: "cs-1".to_string(),
        pipeline_intent_id: "pi-1".to_string(),
        deployment_intent_id: "di-1".to_string(),
        run_id: "run-1".to_string(),
        status: status.to_string(),
        revision: 1,
        material_hash: "sha256:material".to_string(),
        gitops_repo: "example/gitops".to_string(),
        gitops_ref: "main".to_string(),
        head_branch: "pharness/gcs-1".to_string(),
        kustomization_path: "apps/web/overlays/dev".to_string(),
        image_name: "registry.example/web".to_string(),
        image_ref: "registry.example/web@sha256:abc".to_string(),
        gitops_change_set_json: obj(vec![]),
    }
}

fn artifact(id: &str, kind: &str, created_at: &str, content: JsonValue) -> StoredArtifact {
    StoredArtifact {
        id: id.to_string(),
        kind: kind.to_string(),
        run_id: Some("run-1".to_string()),
        created_at: created_at.to_string(),
        content_json: Some(content),
    }
}

fn plan_artifact(id: &str, created_at: &str, cs: &StoredGitOpsChangeSet, base_id: &str) -> StoredArtifact {
    artifact(
        id,
        "gitops_delivery_plan",
        created_at,
        obj(vec![
            (
                "gitops_change_set",
                obj(vec![
                    ("id", s(&cs.id)),
                    ("revision", num(cs.revision)),
                    ("material_hash", s(&cs.material_hash)),
                ]),
            ),
            ("operation", s("branch_and_pull_request")),
            (
                "source",
                obj(vec![
                    ("repository", s(&cs.gitops_repo)),
                    ("base_ref", s(&cs.gitops_ref)),
                    ("head_branch", s(&cs.head_branch)),
                    ("base_commit", s(BASE_COMMIT)),
                    ("base_revision_artifact_id", s(base_id)),
                ]),
            ),
            (
                "update",
                obj(vec![
                    ("kustomization_path", s(&cs.kustomization_path)),
                    ("image_name", s(&cs.image_name)),
                    ("new_image", s(&cs.image_ref)),
                ]),
            ),
        ]),
    )
}

fn evidence(id: &str, kind: &str, created_at: &str, plan_id: &str, extra: Vec<(&str, JsonValue)>) -> StoredArtifact {
    let mut entries = vec![("gitops_delivery_plan_artifact_id", s(plan_id))];
    entries.extend(extra);
    artifact(id, kind, created_at, obj(entries))
}

fn base_revision(id: &str, cs: &StoredGitOpsChangeSet) -> StoredArtifact {
    artifact(
        id,
        "gitops_base_revision",
        "2024-01-01T00:00:00Z",
        obj(vec![
            ("status", s("resolved")),
            ("gitops_change_set_id", s(&cs.id)),
            ("material_hash", s(&cs.material_hash)),
            ("gitops_change_set_revision", num(cs.revision)),
            ("repository", s(&cs.gitops_repo)),
            ("base_ref", s(&cs.gitops_ref)),
            ("base_commit", s(BASE_COMMIT)),
        ]),
    )
}

#[test]
fn delivery_flow_collects_the_latest_evidence_of_the_plan() {
    let cs = change_set("approved");
    let artifacts = vec![
        base_revision("base-1", &cs),
        plan_artifact("plan-1", "2024-01-01T00:01:00Z", &cs, "base-1"),
        evidence("pre-1", "gitops_delivery_preflight", "2024-01-01T00:02:00Z", "plan-1", vec![]),
        evidence("pre-2", "gitops_delivery_preflight", "2024-01-01T00:03:00Z", "plan-1", vec![]),
        evidence("exec-1", "gitops_delivery_execution", "2024-01-01T00:04:00Z", "plan-1", vec![]),
        evidence("res-other", "gitops_delivery_result", "2024-01-01T00:05:00Z", "plan-9", vec![]),
        evidence("merge-1", "gitops_delivery_merge", "2024-01-01T00:06:00Z", "plan-1", vec![]),
    ];
    let flow = gitops_delivery_flow(&artifacts, &cs).ok().unwrap().unwrap();
    assert_eq!(flow.plan, 1);
    assert_eq!(flow.base_revision, 0);
    assert_eq!(flow.latest_preflight, Some(3));
    assert_eq!(flow.latest_execution, Some(4));
    assert_eq!(flow.latest_result, None);
    assert_eq!(flow.latest_observation, None);
    assert_eq!(flow.latest_merge, Some(6));
}

#[test]
fn delivery_flow_requires_the_plans_current_base() {
    let cs = change_set("approved");
    assert!(gitops_delivery_flow(&vec![base_revision("base-1", &cs)], &cs).ok().unwrap().is_none());
    let stale = vec![plan_artifact("plan-1", "2024-01-01T00:01:00Z", &cs, "base-0"), base_revision("base-1", &cs)];
    let e = gitops_delivery_flow(&stale, &cs).err().unwrap();
    assert_eq!(e.kind, ErrorKind::Conflict);
    assert_eq!(e.message, "GitOps delivery plan base revision is no longer current");
    let mut unsourced = plan_artifact("plan-1", "2024-01-01T00:01:00Z", &cs, "base-1");
    unsourced.content_json = Some(obj(vec![(
        "gitops_change_set",
        obj(vec![("id", s(&cs.id)), ("revision", num(cs.revision)), ("material_hash", s(&cs.material_hash))]),
    )]));
    let e = gitops_delivery_flow(&vec![unsourced], &cs).err().unwrap();
    assert_eq!(e.message, "GitOps delivery plan has no base revision provenance");
}

#[test]
fn deployments_on_a_gitops_target_need_its_merge() {
    assert!(declared_gitops_target(None, None).ok().unwrap().is_none());
    assert_eq!(
        declared_gitops_target(Some("example/gitops"), Some("main")).ok().unwrap(),
        Some(("example/gitops".to_string(), "main".to_string()))
    );
    let e = declared_gitops_target(Some("example/gitops"), None).err().unwrap();
    assert_eq!(e.message, "WorkItem must declare both gitops_repo and gitops_ref before Argo execution");

    let cs = change_set("approved");
    assert!(check_deployment_change_set(Some(&cs), "example/gitops", "main").is_ok());
    let e = check_deployment_change_set(Some(&change_set("proposed")), "example/gitops", "main").err().unwrap();
    assert_eq!(e.message, "GitOps ChangeSet is not the current approved target declared by the WorkItem");
    let e = check_deployment_change_set(None, "example/gitops", "main").err().unwrap();
    assert_eq!(e.message, "Deployment requires a GitOps ChangeSet for the completed PipelineIntent");

    let merge = artifact("m", "gitops_delivery_merge", "t", obj(vec![("merge_commit_sha", s(BASE_COMMIT))]));
    assert!(check_deployment_merge(Some(&merge)).is_ok());
    let bad = artifact("m", "gitops_delivery_merge", "t", obj(vec![("merge_commit_sha", s("HEAD"))]));
    let e = check_deployment_merge(Some(&bad)).err().unwrap();
    assert_eq!(e.message, "GitOps merge evidence has no valid immutable merge commit SHA");
    let e = check_deployment_merge(None).err().unwrap();
    assert_eq!(e.message, "Deployment requires an observed immutable GitOps pull-request merge");
}

#[test]
fn authorization_uses_the_latest_plan() {
    let cs = change_set("approved");
    let artifacts = vec![
        base_revision("base-1", &cs),
        plan_artifact("plan-1", "2024-01-01T00:01:00Z", &cs, "base-1"),
        plan_artifact("plan-2", "2024-01-01T00:02:00Z", &cs, "base-1"),
    ];
    assert_eq!(current_gitops_delivery_plan(&artifacts, &cs).ok(), Some((2, 0)));
    let e = current_gitops_delivery_plan(&vec![base_revision("base-1", &cs)], &cs).err().unwrap();
    assert_eq!(e.message, "GitOps ChangeSet needs a current immutable delivery plan before authorization");
    let stale = vec![plan_artifact("plan-1", "2024-01-01T00:01:00Z", &cs, "base-1")];
    let e = current_gitops_delivery_plan(&stale, &cs).err().unwrap();
    assert_eq!(e.message, "GitOps delivery plan base revision is no longer current");
}

#[test]
fn deployment_flow_follows_the_latest_execution() {
    let artifacts = vec![
        artifact("x1", "argo_sync_execution", "2024-01-01T00:01:00Z", obj(vec![("deployment_intent_id", s("di-1")), ("execution_id", s("e1"))])),
        artifact("x2", "argo_sync_execution", "2024-01-01T00:02:00Z", obj(vec![("deployment_intent_id", s("di-1")), ("execution_id", s("e2"))])),
        artifact("x3", "argo_sync_execution", "2024-01-01T00:03:00Z", obj(vec![("deployment_intent_id", s("di-2")), ("execution_id", s("e3"))])),
        artifact("r1", "argo_sync_result", "2024-01-01T00:04:00Z", obj(vec![("execution_id", s("e1"))])),
        artifact("r2", "argo_sync_result", "2024-01-01T00:05:00Z", obj(vec![("execution_id", s("e2"))])),
    ];
    assert_eq!(deployment_intent_delivery_flow(&artifacts, "di-1"), (Some(1), Some(4)));
    assert_eq!(deployment_intent_delivery_flow(&artifacts, "di-2"), (Some(2), None));
    assert_eq!(deployment_intent_delivery_flow(&artifacts, "di-9"), (None, None));
}

#[test]
fn one_change_set_per_pipeline_intent() {
    assert_eq!(existing_change_set_step(None, "plan-a").ok(), Some(false));
    assert_eq!(existing_change_set_step(Some("plan-a"), "plan-a").ok(), Some(true));
    let e = existing_change_set_step(Some("plan-b"), "plan-a").err().unwrap();
    assert_eq!(e.kind, ErrorKind::Conflict);
    assert_eq!(e.message, "PipelineIntent already has a GitOps ChangeSet from a different update plan artifact");
}

#[test]
fn proposed_change_set_texts_and_document() {
    assert_eq!(gitops_change_set_title("Ship web"), "GitOps ChangeSet: Ship web");
    assert_eq!(
        gitops_change_set_summary("example/gitops", "apps/web", "registry.example/web@sha256:abc"),
        "Update example/gitops at apps/web to digest-pinned image registry.example/web@sha256:abc."
    );
    let plan = obj(vec![("kind", s("gitops_update_plan"))]);
    let expected = obj(vec![
        (
            "execution",
            obj(vec![
                ("enabled", JsonValue::Bool(false)),
                (
                    "reason",
                    s("requires approved GitOps ChangeSet, satisfied gitops_mutation gate, and dedicated GitOps writer"),
                ),
            ]),
        ),
        ("kind", s("gitops_change_set")),
        ("source_plan", obj(vec![("kind", s("gitops_update_plan"))])),
        ("version", num(1)),
    ]);
    assert!(json_equal(&gitops_change_set_document(&plan), &expected));
}
