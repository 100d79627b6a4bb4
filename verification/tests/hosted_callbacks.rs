use pharness_api::artifacts::StoredArtifact;
use pharness_api::error::ErrorKind;
use pharness_api::hosted_controller::build_stage::{
    admit_build_attempt, build_outcome_step, BuildOutcome, BuildOutcomeStep, BuildReportFacts,
};
use pharness_api::hosted_controller::source_merge::{
    admit_merge_attempt, check_merge_outcome, may_recover_merge_job, merge_progress, provider_merge_accepted,
    MergeAuthority, MergeOutcome, MergeProgress,
};
use pharness_api::hosted_controller::staging::callbacks::{
    check_commit, check_existing_commit, staging_outcome_step, StagingAuthorityFacts, StagingOutcome, StagingOutcomeStep,
};
use pharness_api::hosted_controller::staging::evidence::{
    check_build_evidence, validate_observation, BuildEvidenceOwner, ObservationExpectation,
};
use pharness_api::hosted_controller::staging::runtime::{
    runtime_commit, runtime_record, FinanceApplication, RuntimeOrigin,
};
use pharness_api::json::{json_equal, JsonNumber, JsonValue};

fn s(text: &str) -> JsonValue {
    JsonValue::Str(text.to_string())
}

fn n(value: u64) -> JsonValue {
    JsonValue::Number(JsonNumber::PosInt(value))
}

fn obj(entries: Vec<(&str, JsonValue)>) -> JsonValue {
    JsonValue::Object(entries.into_iter().map(|(k, v)| (k.to_string(), v)).collect())
}

fn artifact(id: &str, kind: &str, content: Option<JsonValue>) -> StoredArtifact {
    StoredArtifact {
        id: id.to_string(),
        kind: kind.to_string(),
        run_id: Some("run-1".to_string()),
        created_at: "2024-01-01T00:00:00Z".to_string(),
        content_json: content,
    }
}

const BASE: &str = "1111111111111111111111111111111111111111";
const HEAD: &str = "2222222222222222222222222222222222222222";
const MERGE: &str = "3333333333333333333333333333333333333333";
const TREE: &str = "4444444444444444444444444444444444444444";

fn authority() -> MergeAuthority {
    MergeAuthority {
        authority_hash: "sha256:auth".to_string(),
        base_commit_sha: BASE.to_string(),
        head_commit_sha: HEAD.to_string(),
        operation_created_at: 1_000,
    }
}

fn merged_outcome() -> MergeOutcome {
    MergeOutcome {
        execution_id: "srcmerge-1".to_string(),
        authority_hash: "sha256:auth".to_string(),
        checked_at_ms: 2_000,
        status: "merged".to_string(),
        error_code: None,
        merge_http_status: Some(200),
        merge_commit_sha: Some(MERGE.to_string()),
        base_commit_sha: Some(BASE.to_string()),
        head_commit_sha: Some(HEAD.to_string()),
        merge_tree_sha: Some(TREE.to_string()),
        origin: Some("api_acknowledged".to_string()),
        required_checks: None,
    }
}

#[test]
fn merge_attempt_is_admitted_once_for_the_current_authority() {
    assert!(admit_merge_attempt("h", "h", false, false).is_ok());
    assert_eq!(admit_merge_attempt("h", "other", false, false).unwrap_err().message, "source merge admission hash changed");
    let error = admit_merge_attempt("h", "h", true, false).unwrap_err();
    assert_eq!(error.kind, ErrorKind::Conflict);
    assert_eq!(
        error.message,
        "source merge was already admitted or has an outcome; observe GitHub without another merge attempt"
    );
    assert!(admit_merge_attempt("h", "h", false, true).is_err());
}

#[test]
fn merged_receipt_binds_the_approved_source() {
    assert!(check_merge_outcome(&merged_outcome(), &authority(), 5_000, true).is_ok());

    let mut wrong_head = merged_outcome();
    wrong_head.head_commit_sha = Some(BASE.to_string());
    let error = check_merge_outcome(&wrong_head, &authority(), 5_000, true).unwrap_err();
    assert_eq!(error.kind, ErrorKind::Conflict);
    assert_eq!(error.message, "source merge receipt does not bind the approved source and merge identity");

    let error = check_merge_outcome(&merged_outcome(), &authority(), 5_000, false).unwrap_err();
    assert_eq!(error.message, "acknowledged source merge has no admitted attempt");

    let mut observed = merged_outcome();
    observed.origin = Some("observed_existing_merge".to_string());
    observed.merge_http_status = None;
    assert!(check_merge_outcome(&observed, &authority(), 5_000, false).is_ok());
}

#[test]
fn merge_outcome_identity_and_bounds_are_checked_first() {
    let mut future = merged_outcome();
    future.checked_at_ms = 40_001;
    let error = check_merge_outcome(&future, &authority(), 10_000, true).unwrap_err();
    assert_eq!(error.kind, ErrorKind::BadRequest);
    assert_eq!(error.message, "invalid source merge outcome identity or bounded fields");
    future.checked_at_ms = 40_000;
    assert!(check_merge_outcome(&future, &authority(), 10_000, true).is_ok());

    let mut early = merged_outcome();
    early.checked_at_ms = 999;
    assert!(check_merge_outcome(&early, &authority(), 10_000, true).is_err());

    let mut bad_code = merged_outcome();
    bad_code.status = "failed".to_string();
    bad_code.error_code = Some("Timeout".to_string());
    assert_eq!(
        check_merge_outcome(&bad_code, &authority(), 10_000, true).unwrap_err().message,
        "invalid source merge outcome identity or bounded fields"
    );

    let mut unknown = merged_outcome();
    unknown.status = "pending".to_string();
    assert!(check_merge_outcome(&unknown, &authority(), 10_000, true).is_err());
}

#[test]
fn unconfirmed_merge_carries_no_receipt() {
    let mut failed = merged_outcome();
    failed.status = "failed".to_string();
    let error = check_merge_outcome(&failed, &authority(), 10_000, true).unwrap_err();
    assert_eq!(error.kind, ErrorKind::BadRequest);
    assert_eq!(error.message, "an unconfirmed source merge cannot contain a successful merge receipt");

    let clean = MergeOutcome {
        execution_id: "srcmerge-1".to_string(),
        authority_hash: "sha256:auth".to_string(),
        checked_at_ms: 2_000,
        status: "unknown".to_string(),
        error_code: Some("github_timeout".to_string()),
        merge_http_status: None,
        merge_commit_sha: None,
        base_commit_sha: None,
        head_commit_sha: None,
        merge_tree_sha: None,
        origin: None,
        required_checks: None,
    };
    assert!(check_merge_outcome(&clean, &authority(), 10_000, false).is_ok());
}

#[test]
fn merge_job_is_never_recreated_after_an_attempt() {
    assert!(may_recover_merge_job(false, "active", 10, 20));
    assert!(!may_recover_merge_job(true, "active", 10, 20));
    assert!(!may_recover_merge_job(false, "paused", 10, 20));
    assert!(!may_recover_merge_job(false, "active", 20, 20));

    assert!(matches!(merge_progress(true, "succeeded", "job-1", "active", 10, 20), MergeProgress::Observe));
    assert!(matches!(merge_progress(true, "missing", "job-1", "active", 10, 20), MergeProgress::Observe));
    match merge_progress(false, "failed", "job-1", "active", 10, 20) {
        MergeProgress::Report(state, message) => {
            assert_eq!(state, "blocked");
            assert!(message.starts_with("The source merge worker terminated"));
        },
        MergeProgress::Observe => panic!("expected a condition"),
    }
    match merge_progress(false, "running", "job-1", "paused", 10, 20) {
        MergeProgress::Report(state, message) => {
            assert_eq!(state, "paused");
            assert_eq!(message, "Source merge Job job-1 is running under its original bounded authority.");
        },
        MergeProgress::Observe => panic!("expected a condition"),
    }
    match merge_progress(true, "running", "job-1", "active", 30, 20) {
        MergeProgress::Report(state, _) => assert_eq!(state, "wait_expired"),
        MergeProgress::Observe => panic!("expected a condition"),
    }
}

#[test]
fn provider_merge_needs_exact_parents_and_tree() {
    let parents = vec![BASE.to_string(), HEAD.to_string()];
    assert!(provider_merge_accepted(true, Some(&parents), Some(TREE), BASE, HEAD));
    let swapped = vec![HEAD.to_string(), BASE.to_string()];
    assert!(!provider_merge_accepted(true, Some(&swapped), Some(TREE), BASE, HEAD));
    assert!(!provider_merge_accepted(false, Some(&parents), Some(TREE), BASE, HEAD));
    assert!(!provider_merge_accepted(true, Some(&parents), Some("abc"), BASE, HEAD));
    assert!(!provider_merge_accepted(true, None, Some(TREE), BASE, HEAD));
}

fn staging_facts() -> StagingAuthorityFacts {
    StagingAuthorityFacts {
        authority_hash: "sha256:staging".to_string(),
        created_at_ms: 1_000,
        expires_at_ms: 100_000,
        observer_dispatched: false,
    }
}

fn staging_outcome(status: &str) -> StagingOutcome {
    StagingOutcome {
        execution_id: "stg-1".to_string(),
        authority_hash: "sha256:staging".to_string(),
        status: status.to_string(),
        observation: None,
        error_code: None,
        checked_at_ms: 5_000,
        observe_only: false,
    }
}

#[test]
fn unconfirmed_staging_records_an_exception() {
    let mut outcome = staging_outcome("unconfirmed");
    outcome.error_code = Some("github_unavailable".to_string());
    match staging_outcome_step(&outcome, &staging_facts(), 5_000).ok().unwrap() {
        StagingOutcomeStep::Unconfirmed { artifact_id, error_code } => {
            assert_eq!(artifact_id, "staging_executor_exception_stg-1");
            assert_eq!(error_code, "github_unavailable");
        },
        StagingOutcomeStep::Committed => panic!("expected an exception"),
    }
    outcome.error_code = Some(String::new());
    let error = staging_outcome_step(&outcome, &staging_facts(), 5_000).err().unwrap();
    assert_eq!(error.kind, ErrorKind::BadRequest);
    assert_eq!(error.message, "unconfirmed staging requires a bounded error code");

    outcome.observe_only = true;
    let error = staging_outcome_step(&outcome, &staging_facts(), 5_000).err().unwrap();
    assert_eq!(error.kind, ErrorKind::Conflict);
    assert_eq!(error.message, "staging outcome belongs to different authority or an undispatched observer");
}

#[test]
fn committed_staging_must_follow_its_admission() {
    let mut outcome = staging_outcome("committed");
    assert!(matches!(
        staging_outcome_step(&outcome, &staging_facts(), 5_000).ok().unwrap(),
        StagingOutcomeStep::Committed
    ));
    let admission = artifact(
        "staging_attempt_stg-1",
        "hosted_staging_admission",
        Some(obj(vec![
            ("execution_id", s("stg-1")),
            ("operation_id", s("op-1")),
            ("authority_hash", s("sha256:staging")),
            ("plan_hash", s("sha256:plan")),
            ("admitted_at_ms", n(2_000)),
        ])),
    );
    let error = check_commit(&outcome, &staging_facts(), "op-1", Some("sha256:plan"), Some(&admission)).err().unwrap();
    assert_eq!(error.kind, ErrorKind::BadRequest);
    assert_eq!(error.message, "committed staging requires bounded GitHub observation");
    outcome.observation = Some(obj(vec![]));
    assert!(check_commit(&outcome, &staging_facts(), "op-1", Some("sha256:plan"), Some(&admission)).is_ok());
    assert_eq!(
        check_commit(&outcome, &staging_facts(), "op-2", Some("sha256:plan"), Some(&admission)).err().unwrap().message,
        "staging observation differs from its original admission"
    );
    assert_eq!(
        check_commit(&outcome, &staging_facts(), "op-1", None, Some(&admission)).err().unwrap().message,
        "staging observation has no persisted plan"
    );
    assert_eq!(
        check_commit(&outcome, &staging_facts(), "op-1", Some("sha256:plan"), None).err().unwrap().message,
        "staging commit has no admitted write"
    );

    let error = staging_outcome_step(&staging_outcome("applied"), &staging_facts(), 5_000).err().unwrap();
    assert_eq!(error.message, "staging outcome must be committed or unconfirmed without contradictory evidence");
}

fn expectation() -> ObservationExpectation {
    ObservationExpectation {
        plan_base_commit_sha: BASE.to_string(),
        plan_original_blob_sha: "5555555555555555555555555555555555555555".to_string(),
        plan_authority_hash: "sha256:staging".to_string(),
        plan_hash: "sha256:plan".to_string(),
        path: "apps/web/staging/kustomization.yaml".to_string(),
        image_ref: "registry/web@sha256:abc".to_string(),
        authority_created_at_ms: 1_000,
    }
}

fn observation() -> JsonValue {
    obj(vec![
        ("gitops_commit_sha", s(MERGE)),
        ("base_commit_sha", s(BASE)),
        ("current_gitops_revision", s(TREE)),
        ("file_blob_sha", s(HEAD)),
        ("path", s("apps/web/staging/kustomization.yaml")),
        ("image_ref", s("registry/web@sha256:abc")),
        ("authority_hash", s("sha256:staging")),
        ("plan_hash", s("sha256:plan")),
        ("parent_count", n(1)),
        ("changed_file_count", n(1)),
        ("current_file_matches", JsonValue::Bool(true)),
        ("observation_attempts", n(3)),
    ])
}

fn keys(value: &JsonValue) -> Vec<String> {
    match value {
        JsonValue::Object(entries) => entries.iter().map(|(k, _)| k.clone()).collect(),
        _ => vec![],
    }
}

#[test]
fn staging_observation_proves_one_file_change() {
    let identity = validate_observation(&observation(), &expectation(), 5_000, 5_000).ok().unwrap();
    let identity_keys = keys(&identity);
    assert_eq!(identity_keys.len(), 10);
    assert!(!identity_keys.contains(&"current_gitops_revision".to_string()));
    assert!(!identity_keys.contains(&"observation_attempts".to_string()));

    let mut unchanged = observation();
    if let JsonValue::Object(entries) = &mut unchanged {
        entries[0].1 = s(BASE);
    }
    let error = validate_observation(&unchanged, &expectation(), 5_000, 5_000).err().unwrap();
    assert_eq!(error.kind, ErrorKind::Conflict);
    assert_eq!(error.message, "staging observation does not prove the admitted one-file digest change");

    let mut extra = observation();
    if let JsonValue::Object(entries) = &mut extra {
        entries.push(("note".to_string(), s("x")));
    }
    assert!(validate_observation(&extra, &expectation(), 5_000, 5_000).is_err());

    let mut too_many_attempts = observation();
    if let JsonValue::Object(entries) = &mut too_many_attempts {
        entries[11].1 = n(13);
    }
    assert!(validate_observation(&too_many_attempts, &expectation(), 5_000, 5_000).is_err());
    assert!(validate_observation(&observation(), &expectation(), 500, 5_000).is_err());
    assert!(validate_observation(&observation(), &expectation(), 36_000, 5_000).is_err());
}

#[test]
fn existing_commit_receipt_must_be_the_same_commit() {
    let identity = validate_observation(&observation(), &expectation(), 5_000, 5_000).ok().unwrap();
    let receipt = artifact(
        "staging_commit_stg-1",
        "hosted_staging_commit",
        Some(obj(vec![
            ("execution_id", s("stg-1")),
            ("authority_hash", s("sha256:staging")),
            ("identity", identity.duplicate()),
        ])),
    );
    let outcome = staging_outcome("committed");
    assert!(check_existing_commit(&receipt, &identity, &outcome).is_ok());
    let other = obj(vec![("gitops_commit_sha", s(HEAD))]);
    assert_eq!(
        check_existing_commit(&receipt, &other, &outcome).unwrap_err().message,
        "a different staging commit is already recorded"
    );
    let empty = artifact("staging_commit_stg-1", "hosted_staging_commit", None);
    assert_eq!(
        check_existing_commit(&empty, &identity, &outcome).unwrap_err().message,
        "staging commit receipt has no content"
    );
}

fn build_facts() -> BuildReportFacts {
    BuildReportFacts {
        manifest_hash: "sha256:manifest".to_string(),
        run_size: 100,
        analysis_size: 100,
        run_check: Ok(()),
        terminal_recorded: false,
    }
}

fn run(status: &str) -> JsonValue {
    obj(vec![
        ("metadata", obj(vec![("uid", s("uid-1"))])),
        (
            "status",
            obj(vec![
                (
                    "conditions",
                    JsonValue::Array(vec![obj(vec![("type", s("Succeeded")), ("status", s(status))])]),
                ),
                (
                    "results",
                    JsonValue::Array(vec![
                        obj(vec![("name", s("SOURCE_COMMIT")), ("value", s(MERGE))]),
                        obj(vec![("name", s("IMAGE_URL")), ("value", s("registry/web:git-3333"))]),
                        obj(vec![("name", s("IMAGE_DIGEST")), ("value", s("sha256:abc"))]),
                    ]),
                ),
            ]),
        ),
    ])
}

fn analysis() -> JsonValue {
    obj(vec![
        ("pipeline_run", obj(vec![("uid", s("uid-1"))])),
        (
            "outputs",
            obj(vec![(
                "declared_results",
                obj(vec![
                    ("SOURCE_COMMIT", s(MERGE)),
                    ("IMAGE_URL", s("registry/web:git-3333")),
                    ("IMAGE_DIGEST", s("sha256:abc")),
                ]),
            )]),
        ),
    ])
}

fn build_report(run_value: Option<JsonValue>, analysis_value: Option<JsonValue>) -> BuildOutcome {
    BuildOutcome {
        execution_id: "build-1".to_string(),
        manifest_hash: "sha256:manifest".to_string(),
        pipeline_run: run_value,
        analysis: analysis_value,
        error_code: None,
        observe_only: true,
    }
}

fn admission() -> StoredArtifact {
    artifact(
        "build_attempt_build-1",
        "hosted_build_admission",
        Some(obj(vec![("manifest_hash", s("sha256:manifest"))])),
    )
}

#[test]
fn build_attempt_is_admitted_for_the_dispatched_manifest_once() {
    let dispatch = obj(vec![("manifest_hash", s("sha256:manifest"))]);
    assert!(admit_build_attempt(&dispatch, "sha256:manifest", false, false).is_ok());
    assert_eq!(
        admit_build_attempt(&dispatch, "sha256:other", false, false).unwrap_err().message,
        "hosted build admission manifest changed"
    );
    assert!(admit_build_attempt(&dispatch, "sha256:manifest", false, true).is_err());
}

#[test]
fn finished_build_is_recorded_under_its_terminal_receipt() {
    let report = build_report(Some(run("True")), Some(analysis()));
    match build_outcome_step(&report, &build_facts(), Some(&admission())).ok().unwrap() {
        BuildOutcomeStep::Record { status, receipt_id } => {
            assert_eq!(status, "completed");
            assert_eq!(receipt_id, "build_terminal_build-1");
        },
        _ => panic!("expected a receipt"),
    }
    let failed = build_report(Some(run("False")), Some(analysis()));
    match build_outcome_step(&failed, &build_facts(), Some(&admission())).ok().unwrap() {
        BuildOutcomeStep::Record { status, .. } => assert_eq!(status, "failed"),
        _ => panic!("expected a receipt"),
    }
    let mut wrong_digest = analysis();
    if let JsonValue::Object(entries) = &mut wrong_digest {
        if let JsonValue::Object(outputs) = &mut entries[1].1 {
            if let JsonValue::Object(declared) = &mut outputs[0].1 {
                declared[2].1 = s("sha256:other");
            }
        }
    }
    let report = build_report(Some(run("True")), Some(wrong_digest));
    assert_eq!(
        build_outcome_step(&report, &build_facts(), Some(&admission())).err().unwrap().message,
        "hosted build analysis differs from the actual declared PipelineRun results"
    );
    let report = build_report(Some(run("True")), None);
    assert_eq!(
        build_outcome_step(&report, &build_facts(), Some(&admission())).err().unwrap().message,
        "terminal hosted build requires its bounded PipelineRun analysis"
    );
}

#[test]
fn late_submitted_report_never_rewinds_a_terminal_build() {
    let report = build_report(Some(run("Unknown")), None);
    match build_outcome_step(&report, &build_facts(), Some(&admission())).ok().unwrap() {
        BuildOutcomeStep::Record { status, receipt_id } => {
            assert_eq!(status, "submitted");
            assert_eq!(receipt_id, "build_submitted_build-1");
        },
        _ => panic!("expected a receipt"),
    }
    let mut facts = build_facts();
    facts.terminal_recorded = true;
    assert!(matches!(
        build_outcome_step(&report, &facts, Some(&admission())).ok().unwrap(),
        BuildOutcomeStep::Settle
    ));
    let report = build_report(Some(run("Unknown")), Some(analysis()));
    let error = build_outcome_step(&report, &build_facts(), Some(&admission())).err().unwrap();
    assert_eq!(error.kind, ErrorKind::BadRequest);
    assert_eq!(error.message, "a running PipelineRun cannot report terminal analysis");
}

#[test]
fn unobserved_build_needs_a_bounded_error_code() {
    let mut report = build_report(None, None);
    report.error_code = Some("kubernetes_unreachable".to_string());
    match build_outcome_step(&report, &build_facts(), None).ok().unwrap() {
        BuildOutcomeStep::Unconfirmed { artifact_name, error_code } => {
            assert_eq!(artifact_name, "build_exception_build-1_observer");
            assert_eq!(error_code, "kubernetes_unreachable");
        },
        _ => panic!("expected an exception"),
    }
    report.error_code = Some("Kubernetes-Unreachable".to_string());
    assert_eq!(
        build_outcome_step(&report, &build_facts(), None).err().unwrap().message,
        "unavailable build observation requires a bounded error code"
    );
    let mut other = build_report(Some(run("True")), Some(analysis()));
    other.manifest_hash = "sha256:changed".to_string();
    assert_eq!(
        build_outcome_step(&other, &build_facts(), Some(&admission())).err().unwrap().message,
        "hosted build outcome manifest changed"
    );
    let report = build_report(Some(run("True")), Some(analysis()));
    assert_eq!(
        build_outcome_step(&report, &build_facts(), None).err().unwrap().message,
        "observed PipelineRun has no admitted autonomous build"
    );
    let mut failing = build_facts();
    failing.run_check = Err("PipelineRun namespace differs".to_string());
    assert_eq!(
        build_outcome_step(&report, &failing, Some(&admission())).err().unwrap().message,
        "PipelineRun namespace differs"
    );
}

fn owner(intent_json: JsonValue) -> BuildEvidenceOwner {
    BuildEvidenceOwner {
        intent_id: "pi-1".to_string(),
        intent_session_id: "session-1".to_string(),
        intent_run_id: Some("run-1".to_string()),
        intent_json,
        terminal_session_id: "session-1".to_string(),
        output_session_id: "session-1".to_string(),
    }
}

#[test]
fn staging_starts_from_agreeing_build_evidence() {
    let intent = obj(vec![
        ("execution_state", obj(vec![("execution_id", s("build-1")), ("pipeline_run_uid", s("uid-1"))])),
        ("source_provenance", obj(vec![("merge_commit_sha", s(MERGE))])),
        ("build_output", obj(vec![("image_digest", s("sha256:abc"))])),
    ]);
    let terminal = artifact(
        "build_terminal_build-1",
        "hosted_build_observation",
        Some(obj(vec![
            ("execution_id", s("build-1")),
            ("status", s("completed")),
            ("manifest_hash", s("sha256:manifest")),
            ("pipeline_run_uid", s("uid-1")),
            (
                "analysis",
                obj(vec![(
                    "outputs",
                    obj(vec![(
                        "declared_results",
                        obj(vec![
                            ("SOURCE_COMMIT", s(MERGE)),
                            ("IMAGE_URL", s(&format!("registry/web:git-{MERGE}"))),
                            ("IMAGE_DIGEST", s("sha256:abc")),
                        ]),
                    )]),
                )]),
            ),
        ])),
    );
    let output = artifact(
        "output-1",
        "pipeline_build_output",
        Some(obj(vec![
            ("execution_id", s("build-1")),
            ("status", s("verified")),
            ("pipeline_intent_id", s("pi-1")),
            ("source", obj(vec![("commit", s(MERGE)), ("expected_merge_commit", s(MERGE))])),
            (
                "image",
                obj(vec![("digest", s("sha256:abc")), ("url", s(&format!("registry/web:git-{MERGE}")))]),
            ),
        ])),
    );
    let refs = obj(vec![
        ("build_dispatch", obj(vec![("execution_id", s("build-1")), ("manifest_hash", s("sha256:manifest"))])),
        ("build_result", obj(vec![("terminal_artifact_id", s("build_terminal_build-1"))])),
    ]);
    let w = owner(intent.duplicate());
    assert!(check_build_evidence(&w, &terminal, &output, &refs, "registry/web").is_ok());
    let error = check_build_evidence(&w, &terminal, &output, &refs, "registry/api").unwrap_err();
    assert_eq!(error.kind, ErrorKind::Conflict);
    assert_eq!(error.message, "staging build receipt, declared source and image digest disagree");
    let mut other_session = owner(intent);
    other_session.output_session_id = "session-2".to_string();
    assert!(check_build_evidence(&other_session, &terminal, &output, &refs, "registry/web").is_err());
    let empty = artifact("output-1", "pipeline_build_output", None);
    assert_eq!(
        check_build_evidence(&w, &terminal, &empty, &refs, "registry/web").unwrap_err().message,
        "build output has no content"
    );
}

fn runtime_origin() -> RuntimeOrigin {
    RuntimeOrigin {
        execution_id: "exec-1".to_string(),
        session_id: "session-1".to_string(),
        run_id: Some("run-1".to_string()),
        authority_hash: "sha256:staging".to_string(),
        application_repository: "https://github.com/lward27/yfinance_wrapper.git".to_string(),
    }
}

fn commit_receipt() -> StoredArtifact {
    let identity = validate_observation(&observation(), &expectation(), 5_000, 5_000).ok().unwrap();
    artifact(
        "staging_commit_exec-1",
        "hosted_staging_commit",
        Some(obj(vec![
            ("observation", observation()),
            ("checked_at_ms", n(5_000)),
            ("identity", identity),
            ("authority_hash", s("sha256:staging")),
        ])),
    )
}

#[test]
fn runtime_starts_from_the_executions_own_commit_receipt() {
    let receipt = commit_receipt();
    let x = expectation();
    let commit = runtime_commit(&receipt, "session-1", &runtime_origin(), Some(&x), 5_000).ok().unwrap();
    assert!(commit.application == FinanceApplication::Yfinance);
    assert_eq!(commit.gitops_commit_sha, TREE);
    assert_eq!(commit.commit_checked_at_ms, 5_000);

    let error = runtime_commit(&receipt, "session-1", &runtime_origin(), None, 5_000).err().unwrap();
    assert_eq!(error.kind, ErrorKind::Conflict);
    assert_eq!(error.message, "staging runtime requires its original plan");
    let error = runtime_commit(&receipt, "session-2", &runtime_origin(), Some(&x), 5_000).err().unwrap();
    assert_eq!(error.message, "staging runtime commit receipt has different authority or origin");
    let mut elsewhere = runtime_origin();
    elsewhere.application_repository = "https://github.com/example/other.git".to_string();
    let error = runtime_commit(&receipt, "session-1", &elsewhere, Some(&x), 5_000).err().unwrap();
    assert_eq!(error.message, "staging runtime requires a registered Finance application");
    let empty = artifact("staging_commit_exec-1", "hosted_staging_commit", None);
    let error = runtime_commit(&empty, "session-1", &runtime_origin(), Some(&x), 5_000).err().unwrap();
    assert_eq!(error.message, "staging runtime requires its original commit receipt");
}

#[test]
fn runtime_records_are_read_back_only_with_the_same_binding() {
    let binding = obj(vec![("authority_hash", s("sha256:staging"))]);
    let expected = obj(vec![("environment", s("staging"))]);
    assert!(runtime_record(None, "session-1", "identity_1", &runtime_origin(), &binding, &expected).ok().unwrap().is_none());
    let record = artifact(
        "staging_runtime_identity_1_exec-1",
        "hosted_staging_runtime_identity_1",
        Some(obj(vec![("binding", binding.duplicate()), ("expected", expected.duplicate()), ("ok", JsonValue::Bool(true))])),
    );
    let body = runtime_record(Some(&record), "session-1", "identity_1", &runtime_origin(), &binding, &expected)
        .ok()
        .unwrap()
        .unwrap();
    assert!(json_equal(&body, record.content_json.as_ref().unwrap()));
    let error = runtime_record(Some(&record), "session-1", "identity_2", &runtime_origin(), &binding, &expected).err().unwrap();
    assert_eq!(error.message, "staging runtime observation has different native origin");
    let other = obj(vec![("authority_hash", s("sha256:other"))]);
    let error = runtime_record(Some(&record), "session-1", "identity_1", &runtime_origin(), &other, &expected).err().unwrap();
    assert_eq!(error.message, "staging runtime observation is bound to another commit, image or authority");
}
