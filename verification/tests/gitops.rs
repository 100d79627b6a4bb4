use pharness_api::artifacts::{artifact_before, latest_matching, StoredArtifact};
use pharness_api::error::ErrorKind;
use pharness_api::gitops::{
    current_gitops_base_revision, gitops_artifact_change_set_revision,
    gitops_delivery_plan_matches_change_set, gitops_observation_closed_unmerged,
    gitops_observation_refreshable, GitOpsChangeSetStatus, StoredGitOpsChangeSet,
};
use pharness_api::gitops_delivery::{
    gitops_delivery_plan_source, gitops_reproposal_review, plan_gitops_reproposal, required_json_string,
    safe_retry_branch,
};
use pharness_api::json::{JsonNumber, JsonValue};

fn s(text: &str) -> JsonValue {
    JsonValue::Str(text.to_string())
}

fn num(value: i64) -> JsonValue {
    if value >= 0 {
        JsonValue::Number(JsonNumber::PosInt(value as u64))
    } else {
        JsonValue::Number(JsonNumber::NegInt(value))
    }
}

fn obj(entries: Vec<(&str, JsonValue)>) -> JsonValue {
    JsonValue::Object(entries.into_iter().map(|(k, v)| (k.to_string(), v)).collect())
}

const BASE_COMMIT: &str = "0123456789abcdef0123456789abcdef01234567";

fn change_set(status: &str) -> StoredGitOpsChangeSet {
    StoredGitOpsChangeSet {
        id: "gcs-1".to_string(),
        work_item_id: "wi-1".to_string(),
        work_plan_id: "wp-1".to_string(),
        source_change_set_id: "cs-1".to_string(),
        pipeline_intent_id: "pi-1".to_string(),
        deployment_intent_id: "di-1".to_string(),
        run_id: "run-1".to_string(),
        status: status.to_string(),
        revision: 1,
        material_hash: "sha256:material".to_string(),
        gitops_repo: "example/gitops".to_string(),
        gitops_ref: "main".to_string(),
        head_branch: "pharness/gcs-1".to_string(),
        kustomization_path: "apps/web/overlays/dev".to_string(),
        image_name: "registry.example/web".to_string(),
        image_ref: "registry.example/web@sha256:abc".to_string(),
        gitops_change_set_json: obj(vec![]),
    }
}

fn artifact(id: &str, kind: &str, created_at: &str, content: JsonValue) -> StoredArtifact {
    StoredArtifact {
        id: id.to_string(),
        kind: kind.to_string(),
        run_id: Some("run-1".to_string()),
        created_at: created_at.to_string(),
        content_json: Some(content),
    }
}

fn plan_artifact(id: &str, created_at: &str, cs: &StoredGitOpsChangeSet) -> StoredArtifact {
    artifact(
        id,
        "gitops_delivery_plan",
        created_at,
        obj(vec![
            (
                "gitops_change_set",
                obj(vec![
                    ("id", s(&cs.id)),
                    ("revision", num(cs.revision)),
                    ("material_hash", s(&cs.material_hash)),
                ]),
            ),
            ("operation", s("branch_and_pull_request")),
            (
                "source",
                obj(vec![
                    ("repository", s(&cs.gitops_repo)),
                    ("base_ref", s(&cs.gitops_ref)),
                    ("head_branch", s(&cs.head_branch)),
                    ("base_commit", s(BASE_COMMIT)),
                ]),
            ),
            (
                "update",
                obj(vec![
                    ("kustomization_path", s(&cs.kustomization_path)),
                    ("image_name", s(&cs.image_name)),
                    ("new_image", s(&cs.image_ref)),
                ]),
            ),
        ]),
    )
}

fn evidence(id: &str, kind: &str, created_at: &str, plan_id: &str, extra: Vec<(&str, JsonValue)>) -> StoredArtifact {
    let mut entries = vec![("gitops_delivery_plan_artifact_id", s(plan_id))];
    entries.extend(extra);
    artifact(id, kind, created_at, obj(entries))
}

#[test]
fn change_set_status_names_round_trip() {
    for status in [
        GitOpsChangeSetStatus::Proposed,
        GitOpsChangeSetStatus::Approved,
        GitOpsChangeSetStatus::Rejected,
        GitOpsChangeSetStatus::Applied,
        GitOpsChangeSetStatus::Stale,
    ] {
        assert_eq!(GitOpsChangeSetStatus::parse(status.as_str()).unwrap(), status);
    }
    let error = GitOpsChangeSetStatus::parse("merged").unwrap_err();
    assert_eq!(error.kind, ErrorKind::BadRequest);
    assert_eq!(error.message, "unsupported GitOps change set status: merged");
}

#[test]
fn change_set_transitions_only_move_forward() {
    let proposed = GitOpsChangeSetStatus::Proposed;
    let approved = GitOpsChangeSetStatus::Approved;
    let rejected = GitOpsChangeSetStatus::Rejected;
    let applied = GitOpsChangeSetStatus::Applied;
    let stale = GitOpsChangeSetStatus::Stale;
    assert!(proposed.ensure_can_transition_to(approved).is_ok());
    assert!(proposed.ensure_can_transition_to(rejected).is_ok());
    assert!(proposed.ensure_can_transition_to(stale).is_ok());
    assert!(approved.ensure_can_transition_to(applied).is_ok());
    assert!(approved.ensure_can_transition_to(stale).is_ok());
    assert!(proposed.ensure_can_transition_to(applied).is_err());
    assert!(approved.ensure_can_transition_to(proposed).is_err());
    for terminal in [rejected, applied, stale] {
        for target in [proposed, approved, rejected, applied, stale] {
            let error = terminal.ensure_can_transition_to(target).unwrap_err();
            assert_eq!(error.kind, ErrorKind::Conflict);
        }
    }
}

#[test]
fn artifact_revision_defaults_to_one() {
    assert_eq!(gitops_artifact_change_set_revision(&obj(vec![])), 1);
    assert_eq!(
        gitops_artifact_change_set_revision(&obj(vec![("gitops_change_set_revision", num(4))])),
        4
    );
    assert_eq!(
        gitops_artifact_change_set_revision(&obj(vec![("gitops_change_set_revision", s("4"))])),
        1
    );
}

#[test]
fn closed_unmerged_observations_are_not_refreshable() {
    let closed = obj(vec![
        ("status", s("observed")),
        ("pull_request_state", s("closed")),
        ("merged", JsonValue::Bool(false)),
    ]);
    assert!(gitops_observation_closed_unmerged(Some(&closed)));
    assert!(!gitops_observation_refreshable(Some(&closed)));

    let open = obj(vec![
        ("status", s("observed")),
        ("pull_request_state", s("open")),
        ("merged", JsonValue::Bool(false)),
    ]);
    assert!(!gitops_observation_closed_unmerged(Some(&open)));
    assert!(gitops_observation_refreshable(Some(&open)));

    let failed = obj(vec![("status", s("failed"))]);
    assert!(gitops_observation_refreshable(Some(&failed)));
    let merged = obj(vec![("status", s("observed")), ("merged", JsonValue::Bool(true))]);
    assert!(!gitops_observation_refreshable(Some(&merged)));
    assert!(!gitops_observation_refreshable(None));
    assert!(!gitops_observation_closed_unmerged(None));
}

#[test]
fn artifacts_are_ordered_by_creation_then_id() {
    let a = artifact("b", "x", "2024-01-01T00:00:00Z", obj(vec![]));
    let b = artifact("a", "x", "2024-01-02T00:00:00Z", obj(vec![]));
    let c = artifact("c", "x", "2024-01-02T00:00:00Z", obj(vec![]));
    assert!(artifact_before(&a, &b));
    assert!(artifact_before(&b, &c));
    assert!(!artifact_before(&c, &b));
    assert!(!artifact_before(&b, &b));
    let artifacts = vec![b, c, a];
    assert_eq!(latest_matching(&artifacts, &vec![true, true, true]), Some(1));
    assert_eq!(latest_matching(&artifacts, &vec![true, false, true]), Some(0));
    assert_eq!(latest_matching(&artifacts, &vec![false, false, false]), None);
}

#[test]
fn delivery_plan_must_name_the_exact_change_set_revision() {
    let cs = change_set("approved");
    let plan = plan_artifact("plan-1", "2024-01-01T00:00:00Z", &cs);
    assert!(gitops_delivery_plan_matches_change_set(&plan, &cs));
    let mut later = change_set("approved");
    later.revision = 2;
    assert!(!gitops_delivery_plan_matches_change_set(&plan, &later));

    let source = gitops_delivery_plan_source(&plan, &cs).ok().unwrap();
    assert_eq!(source.repository, "example/gitops");
    assert_eq!(source.base_commit, BASE_COMMIT);
    assert_eq!(source.image_ref, "registry.example/web@sha256:abc");

    let mut tag_only = change_set("approved");
    tag_only.image_ref = "registry.example/web:latest".to_string();
    let tagged_plan = plan_artifact("plan-2", "2024-01-01T00:00:00Z", &tag_only);
    assert_eq!(
        gitops_delivery_plan_source(&tagged_plan, &tag_only).err().unwrap().kind,
        ErrorKind::Conflict
    );
}

#[test]
fn required_json_string_names_the_missing_member() {
    let object = obj(vec![("repository", s("example/gitops"))]);
    assert_eq!(required_json_string(&object, "repository", "plan").unwrap(), "example/gitops");
    let error = required_json_string(&object, "base_ref", "GitOps delivery plan source").unwrap_err();
    assert_eq!(error.kind, ErrorKind::Conflict);
    assert_eq!(error.message, "GitOps delivery plan source has no base_ref");
}

#[test]
fn retry_branches_must_be_safe_git_refs() {
    assert!(safe_retry_branch("pharness/gcs-1-revision-2"));
    assert!(!safe_retry_branch("-leading-dash"));
    assert!(!safe_retry_branch("has..dots"));
    assert!(!safe_retry_branch("has space"));
    assert!(!safe_retry_branch("colon:branch"));
    assert!(!safe_retry_branch(&"a".repeat(241)));
    assert!(safe_retry_branch(&"a".repeat(240)));
}

#[test]
fn failed_delivery_is_reproposed_on_the_next_revision() {
    let cs = change_set("approved");
    let artifacts = vec![
        plan_artifact("plan-1", "2024-01-01T00:00:00Z", &cs),
        evidence(
            "exec-1",
            "gitops_delivery_execution",
            "2024-01-01T00:01:00Z",
            "plan-1",
            vec![("permission_grant_id", s("grant-1"))],
        ),
        evidence("result-1", "gitops_delivery_result", "2024-01-01T00:02:00Z", "plan-1", vec![("status", s("failed"))]),
    ];
    let plan = plan_gitops_reproposal(&cs, &artifacts).ok().unwrap();
    assert_eq!(plan.plan_index, 0);
    assert_eq!(plan.result_index, 2);
    assert_eq!(plan.observation_index, None);
    assert_eq!(plan.grant_id.as_deref(), Some("grant-1"));
    assert!(!plan.external_mutation_observed);
    assert_eq!(plan.next_revision, 2);
    assert_eq!(plan.next_head_branch, "pharness/gcs-1-revision-2");
}

#[test]
fn merged_or_successful_delivery_is_not_reproposed() {
    let cs = change_set("approved");
    let mut artifacts = vec![
        plan_artifact("plan-1", "2024-01-01T00:00:00Z", &cs),
        evidence("result-1", "gitops_delivery_result", "2024-01-01T00:02:00Z", "plan-1", vec![("status", s("completed"))]),
    ];
    let error = plan_gitops_reproposal(&cs, &artifacts).err().unwrap();
    assert_eq!(error.kind, ErrorKind::Conflict);

    artifacts.push(evidence(
        "obs-1",
        "gitops_delivery_pr_observation",
        "2024-01-01T00:03:00Z",
        "plan-1",
        vec![
            ("status", s("observed")),
            ("pull_request_state", s("closed")),
            ("merged", JsonValue::Bool(false)),
        ],
    ));
    let plan = plan_gitops_reproposal(&cs, &artifacts).ok().unwrap();
    assert!(plan.external_mutation_observed);
    assert_eq!(plan.observation_index, Some(2));
    assert_eq!(plan.grant_id, None);

    artifacts.push(evidence("merge-1", "gitops_delivery_merge", "2024-01-01T00:04:00Z", "plan-1", vec![]));
    assert!(plan_gitops_reproposal(&cs, &artifacts).is_err());

    let proposed = change_set("proposed");
    assert!(plan_gitops_reproposal(&proposed, &artifacts[..2].to_vec_clone()).is_err());
}

trait CloneArtifacts {
    fn to_vec_clone(&self) -> Vec<StoredArtifact>;
}

impl CloneArtifacts for [StoredArtifact] {
    fn to_vec_clone(&self) -> Vec<StoredArtifact> {
        self.iter()
            .map(|a| StoredArtifact {
                id: a.id.clone(),
                kind: a.kind.clone(),
                run_id: a.run_id.clone(),
                created_at: a.created_at.clone(),
                content_json: a.content_json.as_ref().map(|c| c.duplicate()),
            })
            .collect()
    }
}

#[test]
fn current_base_revision_needs_a_matching_artifact() {
    let cs = change_set("approved");
    let error = current_gitops_base_revision(&vec![], &cs).err().unwrap();
    assert_eq!(error.kind, ErrorKind::Conflict);
}

#[test]
fn reproposal_review_names_the_grant_before_the_branch_is_checked() {
    let mut cs = change_set("approved");
    cs.gitops_change_set_json = obj(vec![(
        "source_plan",
        obj(vec![("gitops", obj(vec![("head_branch", s("unsafe branch"))]))]),
    )]);
    let artifacts = vec![
        plan_artifact("plan-1", "2024-01-01T00:00:00Z", &cs),
        evidence(
            "exec-1",
            "gitops_delivery_execution",
            "2024-01-01T00:01:00Z",
            "plan-1",
            vec![("permission_grant_id", s("grant-1"))],
        ),
        evidence("result-1", "gitops_delivery_result", "2024-01-01T00:02:00Z", "plan-1", vec![("status", s("failed"))]),
    ];
    let review = gitops_reproposal_review(&cs, &artifacts).ok().unwrap();
    assert_eq!(review.grant_id.as_deref(), Some("grant-1"));
    assert_eq!(review.result_index, 2);
    let error = plan_gitops_reproposal(&cs, &artifacts).err().unwrap();
    assert_eq!(error.kind, ErrorKind::Conflict);
    assert_eq!(error.message, "GitOps ChangeSet cannot derive a safe revision-scoped retry branch");
}

#[test]
fn reproposal_refusals_name_their_cause() {
    let cs = change_set("approved");
    let error = plan_gitops_reproposal(&change_set("proposed"), &vec![]).err().unwrap();
    assert_eq!(error.message, "GitOps delivery retry review requires an approved GitOps ChangeSet");
    let error = plan_gitops_reproposal(&cs, &vec![]).err().unwrap();
    assert_eq!(error.message, "failed GitOps delivery has no current plan");
    let mut artifacts = vec![plan_artifact("plan-1", "2024-01-01T00:00:00Z", &cs)];
    let error = plan_gitops_reproposal(&cs, &artifacts).err().unwrap();
    assert_eq!(error.message, "GitOps delivery has no terminal result");
    artifacts.push(evidence("result-1", "gitops_delivery_result", "2024-01-01T00:02:00Z", "plan-1", vec![("status", s("completed"))]));
    let error = plan_gitops_reproposal(&cs, &artifacts).err().unwrap();
    assert_eq!(
        error.message,
        "GitOps ChangeSet can be re-proposed only after a failed bounded delivery or a closed, unmerged pull request"
    );
    artifacts[1] = evidence("result-1", "gitops_delivery_result", "2024-01-01T00:02:00Z", "plan-1", vec![("status", s("dispatch_failed"))]);
    artifacts.push(evidence("merge-1", "gitops_delivery_merge", "2024-01-01T00:04:00Z", "plan-1", vec![]));
    let error = plan_gitops_reproposal(&cs, &artifacts).err().unwrap();
    assert_eq!(error.message, "GitOps ChangeSet cannot be re-proposed after an observed merge");
}

#[test]
fn delivery_plan_source_refusals_name_their_cause() {
    let cs = change_set("approved");
    let mut plan = plan_artifact("plan-1", "2024-01-01T00:00:00Z", &cs);
    plan.content_json = None;
    assert_eq!(gitops_delivery_plan_source(&plan, &cs).err().unwrap().message, "GitOps delivery plan has no structured content");
    let plan = artifact("plan-1", "gitops_delivery_plan", "2024-01-01T00:00:00Z", obj(vec![("operation", s("apply"))]));
    assert_eq!(
        gitops_delivery_plan_source(&plan, &cs).err().unwrap().message,
        "GitOps delivery plan does not describe a branch-and-pull-request operation"
    );
    let plan = artifact(
        "plan-1",
        "gitops_delivery_plan",
        "2024-01-01T00:00:00Z",
        obj(vec![("operation", s("branch_and_pull_request"))]),
    );
    assert_eq!(gitops_delivery_plan_source(&plan, &cs).err().unwrap().message, "GitOps delivery plan has no source provenance");
    let plan = artifact(
        "plan-1",
        "gitops_delivery_plan",
        "2024-01-01T00:00:00Z",
        obj(vec![("operation", s("branch_and_pull_request")), ("source", obj(vec![])), ("update", obj(vec![]))]),
    );
    assert_eq!(gitops_delivery_plan_source(&plan, &cs).err().unwrap().message, "GitOps delivery plan source has no repository");
    let mut other = change_set("approved");
    other.gitops_ref = "release".to_string();
    let plan = plan_artifact("plan-1", "2024-01-01T00:00:00Z", &cs);
    assert_eq!(
        gitops_delivery_plan_source(&plan, &other).err().unwrap().message,
        "GitOps delivery plan no longer matches the immutable ChangeSet target"
    );
}
