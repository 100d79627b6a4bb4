use pharness_api::error::ErrorKind;
use pharness_api::hosted_controller::staging::progress::{
    check_staging_candidate, commit_result, committed_condition, reader_blocks, staging_condition,
    staging_dispatch_identity, staging_job_decision, staging_preparation_stop, writer_recovery_allowed,
    StagingJobDecision,
};
use pharness_api::hosted_controller::staging::progress::{staging_step, StagingAction, StagingFacts};
use pharness_api::json::{json_equal, JsonValue};

fn s(t: &str) -> JsonValue {
    JsonValue::Str(t.to_string())
}

fn obj(members: Vec<(&str, JsonValue)>) -> JsonValue {
    JsonValue::Object(members.into_iter().map(|(k, v)| (k.to_string(), v)).collect())
}

#[test]
fn preparation_stops_for_inactive_or_expired_work() {
    assert!(staging_preparation_stop("active", false, "pending").is_none());
    let (release, c) = staging_preparation_stop("paused", false, "pending").unwrap();
    assert!(release);
    assert_eq!(c.0, "paused");
    assert_eq!(c.1, "New staging preparation is stopped; the original operation remains recorded.");
    let (release, c) = staging_preparation_stop("active", true, "running").unwrap();
    assert!(!release);
    assert_eq!(c.0, "wait_expired");
}

#[test]
fn preparation_needs_the_recorded_candidate() {
    assert!(check_staging_candidate(Some("h"), "h").is_ok());
    let e = check_staging_candidate(Some("g"), "h").err().unwrap();
    assert_eq!(e.kind, ErrorKind::Conflict);
    assert_eq!(e.message, "staging build or policy changed before preparation");
    let e = check_staging_candidate(None, "h").err().unwrap();
    assert_eq!(e.message, "the recorded staging operation no longer has eligible build evidence");
}

#[test]
fn dispatch_names_its_deployment_and_execution() {
    let dispatch = obj(vec![(
        "authority",
        obj(vec![("deployment_intent_id", s("dintent_staging_1")), ("execution_id", s("sexec_1"))]),
    )]);
    assert_eq!(
        staging_dispatch_identity(&dispatch).ok(),
        Some(("dintent_staging_1".to_string(), "sexec_1".to_string()))
    );
    let e = staging_dispatch_identity(&obj(vec![("authority", obj(vec![("execution_id", s("x"))]))])).err().unwrap();
    assert_eq!(e.message, "staging deployment identity is missing");
    let e = staging_dispatch_identity(&obj(vec![("authority", obj(vec![("deployment_intent_id", s("d"))]))]))
        .err()
        .unwrap();
    assert_eq!(e.message, "staging execution identity is missing");
}

#[test]
fn commit_keeps_verification_pending() {
    let content = obj(vec![("identity", obj(vec![("gitops_commit_sha", s("abc"))]))]);
    let result = commit_result("staging_commit_1", Some(&content));
    let expected = obj(vec![
        ("artifact_id", s("staging_commit_1")),
        ("deployment_verification", s("pending")),
        ("gitops_commit_sha", s("abc")),
        ("runtime_verification", s("pending")),
        ("status", s("gitops_committed")),
    ]);
    assert!(json_equal(&result, &expected));
    let without = commit_result("staging_commit_1", None);
    let expected_null = obj(vec![
        ("artifact_id", s("staging_commit_1")),
        ("deployment_verification", s("pending")),
        ("gitops_commit_sha", JsonValue::Null),
        ("runtime_verification", s("pending")),
        ("status", s("gitops_committed")),
    ]);
    assert!(json_equal(&without, &expected_null));
    assert_eq!(committed_condition(true).0, "wait_expired");
    assert_eq!(committed_condition(false).0, "waiting");
}

#[test]
fn writer_and_reader_decisions() {
    assert!(writer_recovery_allowed(false, "active", false));
    assert!(!writer_recovery_allowed(true, "active", false));
    assert!(!writer_recovery_allowed(false, "paused", false));
    assert!(!writer_recovery_allowed(false, "active", true));

    assert_eq!(
        staging_job_decision("missing", true, false, false),
        StagingJobDecision::RecoverThroughReader { dispatch_reader: true }
    );
    assert_eq!(
        staging_job_decision("succeeded", true, false, true),
        StagingJobDecision::RecoverThroughReader { dispatch_reader: false }
    );
    assert_eq!(
        staging_job_decision("failed", true, true, false),
        StagingJobDecision::RecoverThroughReader { dispatch_reader: false }
    );
    assert_eq!(staging_job_decision("failed", false, false, false), StagingJobDecision::EndedBeforeAdmission);
    assert_eq!(staging_job_decision("missing", false, false, false), StagingJobDecision::Observe);
    assert_eq!(staging_job_decision("running", true, false, false), StagingJobDecision::Observe);

    assert!(reader_blocks("failed", true));
    assert!(reader_blocks("missing", false));
    assert!(!reader_blocks("missing", true));
    assert!(!reader_blocks("running", false));

    let c = staging_condition(StagingJobDecision::EndedBeforeAdmission, false, false);
    assert_eq!(c.0, "blocked");
    let c = staging_condition(StagingJobDecision::RecoverThroughReader { dispatch_reader: false }, true, false);
    assert_eq!(
        c.1,
        "The bounded staging observer is unavailable or ended without an accepted result. No replacement writer or observer was started."
    );
    let c = staging_condition(StagingJobDecision::Observe, false, true);
    assert_eq!(c.0, "wait_expired");
}

fn facts() -> StagingFacts {
    StagingFacts {
        control: "active".to_string(),
        expired: false,
        operation_status: "pending".to_string(),
        dispatched: false,
        candidate_hash: Some("h".to_string()),
        input_hash: "h".to_string(),
        commit_recorded: false,
        admitted: false,
        baseline: None,
        writer_status: None,
        reader_dispatched: false,
        reader_status: None,
    }
}

#[test]
fn staging_pass_runs_in_order() {
    let mut f = facts();
    assert!(matches!(staging_step(&f), Ok(StagingAction::Prepare { begin_operation: true })));
    f.candidate_hash = Some("g".to_string());
    let e = staging_step(&f).err().unwrap();
    assert_eq!(e.message, "staging build or policy changed before preparation");
    f.control = "paused".to_string();
    match staging_step(&f) {
        Ok(StagingAction::Stop { release_locks, condition }) => {
            assert!(release_locks);
            assert_eq!(condition.0, "paused");
        }
        _ => panic!("stop expected"),
    }

    let mut f = facts();
    f.dispatched = true;
    f.commit_recorded = true;
    f.admitted = true;
    assert!(matches!(staging_step(&f), Ok(StagingAction::SettleCommit { .. })));

    let mut f = facts();
    f.dispatched = true;
    assert!(matches!(staging_step(&f), Ok(StagingAction::CheckBaseline)));
    f.baseline = Some(Some(("blocked".to_string(), "baseline failed".to_string())));
    match staging_step(&f) {
        Ok(StagingAction::Report(c)) => assert_eq!(c.1, "baseline failed"),
        _ => panic!("report expected"),
    }
    f.baseline = Some(None);
    assert!(matches!(staging_step(&f), Ok(StagingAction::ReconcileWriter { recover: true })));
    f.writer_status = Some("failed".to_string());
    match staging_step(&f) {
        Ok(StagingAction::Report(c)) => assert_eq!(c.0, "blocked"),
        _ => panic!("report expected"),
    }

    let mut f = facts();
    f.dispatched = true;
    f.admitted = true;
    assert!(matches!(staging_step(&f), Ok(StagingAction::ReconcileWriter { recover: false })));
    f.writer_status = Some("succeeded".to_string());
    assert!(matches!(staging_step(&f), Ok(StagingAction::ReconcileReader { dispatch: true })));
    f.reader_dispatched = true;
    f.reader_status = Some("running".to_string());
    match staging_step(&f) {
        Ok(StagingAction::Report(c)) => assert_eq!(c.0, "waiting"),
        _ => panic!("report expected"),
    }
}
