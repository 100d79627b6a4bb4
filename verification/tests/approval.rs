use pharness_api::agents::InferenceStage;
use pharness_api::error::ErrorKind;
use pharness_api::hosted_controller::approval::{
    check_change_set_approval, check_plan_approval, planner_outcome, successful, ApprovalChangeSet, ApprovalPlan,
    StageOutcome,
};
use pharness_api::json::{JsonNumber, JsonValue};
use pharness_api::qualification::{
    check_qualification_registry, qualification_verdict, ExecutionPolicy, PolicyQualificationRequest,
    QualificationContract,
};

fn s(text: &str) -> JsonValue {
    JsonValue::Str(text.to_string())
}

fn obj(entries: Vec<(&str, JsonValue)>) -> JsonValue {
    JsonValue::Object(entries.into_iter().map(|(k, v)| (k.to_string(), v)).collect())
}

fn plan_document() -> JsonValue {
    obj(vec![("title", s("Add caching")), ("steps", JsonValue::Array(vec![s("one")]))])
}

fn outcome(stage: &str, extra: Vec<(&str, JsonValue)>) -> StageOutcome {
    let mut entries = vec![("status", s("succeeded")), ("contradictions", JsonValue::Array(vec![]))];
    entries.extend(extra);
    StageOutcome {
        stage_key: stage.to_string(),
        stage_execution_id: format!("exec-{stage}"),
        status: "succeeded".to_string(),
        outcome: obj(entries),
        content_hash: "sha256:h".to_string(),
        computed_hash: "sha256:h".to_string(),
    }
}

fn planner() -> StageOutcome {
    outcome(
        "plan",
        vec![
            (
                "outputs",
                JsonValue::Array(vec![obj(vec![
                    ("kind", s("work_plan")),
                    ("id", s("wp-1")),
                    ("revision", JsonValue::Number(JsonNumber::PosInt(2))),
                ])]),
            ),
            (
                "agent_claims",
                JsonValue::Array(vec![obj(vec![("kind", s("planner_submission")), ("document", plan_document())])]),
            ),
        ],
    )
}

fn plan() -> ApprovalPlan {
    ApprovalPlan { id: "wp-1".to_string(), run_id: Some("run-1".to_string()), revision: 2, work_plan_json: plan_document() }
}

#[test]
fn only_sealed_successful_evidence_counts() {
    assert!(successful(&planner()).is_ok());
    let mut changed = planner();
    changed.computed_hash = "sha256:other".to_string();
    let error = successful(&changed).unwrap_err();
    assert_eq!(error.kind, ErrorKind::Conflict);
    assert_eq!(
        error.message,
        "automatic approval requires current successful evidence without unresolved contradictions"
    );
    let contradicted = outcome("plan", vec![("contradictions", JsonValue::Array(vec![s("tests disagree")]))]);
    assert!(successful(&contradicted).is_err());
}

#[test]
fn work_plan_approval_matches_the_sealed_planner_revision() {
    let outcomes = vec![outcome("discover", vec![]), planner()];
    let i = planner_outcome(&outcomes).unwrap();
    assert_eq!(i, 1);
    assert!(check_plan_approval(&plan(), "wp-1", &outcomes[i], Some("run-1")).is_ok());
    let error = check_plan_approval(&plan(), "wp-1", &outcomes[i], Some("run-2")).unwrap_err();
    assert_eq!(error.message, "the proposed WorkPlan does not match the sealed Planner revision");
    let mut edited = plan();
    edited.work_plan_json = obj(vec![("title", s("Something else"))]);
    assert!(check_plan_approval(&edited, "wp-1", &outcomes[i], Some("run-1")).is_err());
    let mut revised = plan();
    revised.revision = 3;
    assert!(check_plan_approval(&revised, "wp-1", &outcomes[i], Some("run-1")).is_err());
    assert_eq!(
        planner_outcome(&vec![outcome("discover", vec![])]).unwrap_err().message,
        "automatic plan approval requires sealed Planner evidence"
    );
}

fn change_set() -> ApprovalChangeSet {
    ApprovalChangeSet {
        id: "cs-1".to_string(),
        material_hash: "sha256:m".to_string(),
        computed_hash: "sha256:m".to_string(),
        material: obj(vec![
            ("effective_outcomes", JsonValue::Array(vec![])),
            ("verification_stage_execution_id", s("exec-verify")),
        ]),
    }
}

fn all_outcomes() -> Vec<StageOutcome> {
    ["discover", "plan", "implement", "test", "verify"].iter().map(|st| outcome(st, vec![])).collect()
}

#[test]
fn change_set_approval_needs_every_stage() {
    assert!(check_change_set_approval(&change_set(), "cs-1", true, &all_outcomes()).is_ok());
    assert_eq!(
        check_change_set_approval(&change_set(), "cs-1", false, &all_outcomes()).unwrap_err().message,
        "automatic approval requires the exact current verified ChangeSet"
    );
    let mut missing = all_outcomes();
    missing.remove(3);
    assert_eq!(
        check_change_set_approval(&change_set(), "cs-1", true, &missing).unwrap_err().message,
        "automatic approval is missing test evidence"
    );
    let mut other_verifier = change_set();
    other_verifier.material = obj(vec![
        ("effective_outcomes", JsonValue::Array(vec![])),
        ("verification_stage_execution_id", s("exec-other")),
    ]);
    assert_eq!(
        check_change_set_approval(&other_verifier, "cs-1", true, &all_outcomes()).unwrap_err().message,
        "ChangeSet verifier identity changed"
    );
    let mut unbound = change_set();
    unbound.material = obj(vec![]);
    assert_eq!(
        check_change_set_approval(&unbound, "cs-1", true, &all_outcomes()).unwrap_err().message,
        "ChangeSet has no bound stage outcomes"
    );
}

fn policy() -> ExecutionPolicy {
    ExecutionPolicy {
        policy_id: "codex-planner".to_string(),
        revision: "r1".to_string(),
        policy_hash: "sha256:p".to_string(),
        codex_version: "0.50.0".to_string(),
        model: "gpt".to_string(),
        reasoning_effort: "high".to_string(),
        prompt_revision: "p1".to_string(),
        prompt_hash: "sha256:prompt".to_string(),
        output_schema_hash: "sha256:schema".to_string(),
        eligible_stages: vec![InferenceStage::Plan],
    }
}

fn contract() -> QualificationContract {
    QualificationContract {
        suite_id: "planner-v2".to_string(),
        suite_hash: "sha256:suite".to_string(),
        semantic_attempts: 2,
        fixtures_per_attempt: 12,
        protocol_suite_hash: "sha256:protocol".to_string(),
    }
}

fn request() -> PolicyQualificationRequest {
    PolicyQualificationRequest {
        actor: "alice".to_string(),
        reason: "qualify".to_string(),
        config_hash: "sha256:registry".to_string(),
        runtime_revision: "rt-1".to_string(),
        suite_id: "planner-v2".to_string(),
        suite_hash: "sha256:suite".to_string(),
        attempts: 2,
        metrics: obj(vec![]),
        verdict: None,
        evidence_artifact_id: None,
    }
}

#[test]
fn qualification_requests_are_checked_before_their_report() {
    assert!(check_qualification_registry(&request(), "sha256:registry").is_ok());
    assert_eq!(
        check_qualification_registry(&request(), "sha256:new").unwrap_err().message,
        "agent execution registry changed; refresh before recording qualification"
    );
    let mut blank = request();
    blank.actor = "  ".to_string();
    assert_eq!(
        qualification_verdict(&blank, &policy(), "sha256:registry", "rt-1", &contract()).unwrap_err().kind,
        ErrorKind::BadRequest
    );
    let mut sealed = request();
    sealed.evidence_artifact_id = Some("art-1".to_string());
    assert_eq!(
        qualification_verdict(&sealed, &policy(), "sha256:registry", "rt-1", &contract()).unwrap_err().message,
        "qualification evidence is controller-sealed; clients cannot supply an artifact ID"
    );
    assert_eq!(
        qualification_verdict(&request(), &policy(), "sha256:registry", "rt-2", &contract()).unwrap_err().message,
        "qualification report does not match the current runtime and server-authored suite contract"
    );
    assert_eq!(
        qualification_verdict(&request(), &policy(), "sha256:registry", "rt-1", &contract()).unwrap_err().message,
        "qualification report provenance does not match the exact policy, runtime, or suite"
    );
}
