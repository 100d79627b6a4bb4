use pharness_api::error::ErrorKind;
use pharness_api::hosted_controller::build_stage;
use pharness_api::hosted_controller::source_merge;
use pharness_api::hosted_controller::staging::runtime::{RuntimeWindow, Window, WindowBounds};
use pharness_api::hosted_controller::staging::{artifact_id, runtime};
use pharness_api::hosted_controller::{
    admit_snapshot, condition, continuation_candidate, control_actions, deadline, decide_workflow_control, now,
    wait_expired, RunRecord, SnapshotFacts, StageRecord, RUN_HISTORY_LIMIT,
};

const REFUSED_ACTION: &str = "Hosted work advances through its controller. Use pause, resume or cancel to control progression; production approval is a separate decision.";
const STALE_DECISION: &str = "workflow control changed; refresh before applying this decision";

#[test]
fn pause_resume_and_cancel_move_the_control_state() {
    assert_eq!(decide_workflow_control("pause_workflow", "active", "h", "h").unwrap(), "paused");
    assert_eq!(decide_workflow_control("resume_workflow", "paused", "h", "h").unwrap(), "active");
    assert_eq!(decide_workflow_control("cancel_workflow", "paused", "h", "h").unwrap(), "cancelled");
    assert_eq!(decide_workflow_control("cancel_workflow", "active", "h", "h").unwrap(), "cancelled");
}

#[test]
fn cancelled_work_accepts_no_further_control() {
    for action in ["pause_workflow", "resume_workflow", "cancel_workflow"] {
        let error = decide_workflow_control(action, "cancelled", "h", "h").unwrap_err();
        assert_eq!(error.kind, ErrorKind::Conflict);
        assert_eq!(error.message, STALE_DECISION);
    }
    assert!(control_actions("cancelled", false, "wi-1", "h").is_empty());
}

#[test]
fn controls_need_the_current_state_hash_and_an_offered_action() {
    let error = decide_workflow_control("pause_workflow", "active", "new", "old").unwrap_err();
    assert_eq!(error.message, STALE_DECISION);
    let error = decide_workflow_control("resume_workflow", "active", "h", "h").unwrap_err();
    assert_eq!(error.message, STALE_DECISION);
    let error = decide_workflow_control("approve_production", "active", "h", "h").unwrap_err();
    assert_eq!(error.kind, ErrorKind::Conflict);
    assert_eq!(error.message, REFUSED_ACTION);
}

#[test]
fn offered_controls_follow_the_control_state() {
    let active = control_actions("active", false, "wi-1", "hash-1");
    let ids: Vec<&str> = active.iter().map(|a| a.id.as_str()).collect();
    assert_eq!(ids, vec!["pause_workflow", "cancel_workflow"]);
    assert_eq!(active[0].resource, "wi-1");
    assert!(active[0].approval_required);
    assert_eq!(active[0].status, "ready");
    assert_eq!(active[0].state_hash, "hash-1");
    let paused = control_actions("paused", false, "wi-1", "hash-1");
    let ids: Vec<&str> = paused.iter().map(|a| a.id.as_str()).collect();
    assert_eq!(ids, vec!["resume_workflow", "cancel_workflow"]);
    assert!(control_actions("active", true, "wi-1", "hash-1").is_empty());
}

#[test]
fn wait_expires_only_after_the_budget_on_an_unchanged_snapshot() {
    assert!(wait_expired(5, 5, Some("h"), "h"));
    assert!(wait_expired(6, 5, Some("h"), "h"));
    assert!(!wait_expired(4, 5, Some("h"), "h"));
    assert!(!wait_expired(5, 5, Some("other"), "h"));
    assert!(!wait_expired(5, 5, None, "h"));
}

#[test]
fn deadline_adds_the_polling_budget_and_saturates() {
    assert_eq!(deadline(1_000, 2_000, 3), 7_000);
    assert_eq!(deadline(i64::MAX - 10, 1_000, 10), i64::MAX);
    assert_eq!(deadline(i64::MIN + 10, -1_000, 10), i64::MIN);
    assert_eq!(deadline(5, 1_000, 0), 5);
}

#[test]
fn continuation_uses_the_completed_run_of_the_last_chain_stage() {
    let stages = vec![
        StageRecord { id: "s1".into(), stage_key: "plan".into(), run_id: Some("r1".into()) },
        StageRecord { id: "s2".into(), stage_key: "implement".into(), run_id: Some("r2".into()) },
        StageRecord { id: "s3".into(), stage_key: "release".into(), run_id: Some("r3".into()) },
    ];
    let runs = vec![
        RunRecord { id: "r2".into(), status: "failed".into() },
        RunRecord { id: "r1".into(), status: "completed".into() },
        RunRecord { id: "r2".into(), status: "completed".into() },
    ];
    assert_eq!(continuation_candidate(&stages, &runs), Some(2));
    assert_eq!(continuation_candidate(&stages[..1].iter().map(|s| StageRecord {
        id: s.id.clone(),
        stage_key: s.stage_key.clone(),
        run_id: s.run_id.clone(),
    }).collect(), &runs), None);
    assert_eq!(continuation_candidate(&vec![], &runs), None);
}

#[test]
fn controller_records_have_stable_ids() {
    assert_eq!(build_stage::attempt_id("ex-1"), "build_attempt_ex-1");
    assert_eq!(build_stage::terminal_id("ex-1"), "build_terminal_ex-1");
    assert_eq!(source_merge::receipt_id("ex-2"), "source_merge_receipt_ex-2");
    assert_eq!(source_merge::attempt_id("ex-2"), "source_merge_attempt_ex-2");
    assert_eq!(artifact_id("evidence", "ex-3"), "staging_evidence_ex-3");
    assert_eq!(runtime::id("ex-4", "identity_1"), "staging_runtime_identity_1_ex-4");
    assert!(source_merge::git_sha("0123456789abcdef0123456789abcdef01234567"));
    assert!(!source_merge::git_sha("0123456789ABCDEF0123456789abcdef01234567"));
    assert!(!source_merge::git_sha("abc"));
}

#[test]
fn conditions_and_clock() {
    let c = condition("Ready", "all checks passed".to_string());
    assert_eq!(c.0, "Ready");
    assert_eq!(c.1, "all checks passed");
    assert!(now() > 1_600_000_000_000);
}

fn bounds() -> WindowBounds {
    WindowBounds {
        operation_created_at: 1_000,
        commit_checked_at_ms: 2_000,
        now: 10_000,
        authority_expires_at_ms: 5_000_000,
        max_checks: 3,
    }
}

#[test]
fn runtime_window_must_match_and_end_before_the_authority() {
    let window = RuntimeWindow { start_unix_seconds: 100, end_unix_seconds: 200 };
    let record = Window::new(3_000, "identity_1".to_string(), Some(window), &bounds()).ok().unwrap();
    assert_eq!(record.expires_at(), 260_000);
    assert!(record.validate(&bounds(), Some(window)).is_ok());
    let other = RuntimeWindow { start_unix_seconds: 100, end_unix_seconds: 201 };
    assert!(record.validate(&bounds(), Some(other)).is_err());
    assert!(record.validate(&bounds(), None).is_err());

    let error = Window::new(1_500, "identity_1".to_string(), Some(window), &bounds()).err().unwrap();
    assert_eq!(error.kind, ErrorKind::Conflict);
    assert!(Window::new(3_000, "identity_4".to_string(), Some(window), &bounds()).is_err());
    assert!(Window::new(3_000, "identity_01".to_string(), Some(window), &bounds()).is_err());
    assert!(Window::new(3_000, "identity_3".to_string(), Some(window), &bounds()).is_ok());
    let late = RuntimeWindow { start_unix_seconds: 100, end_unix_seconds: 5_000 };
    assert!(Window::new(3_000, "identity_1".to_string(), Some(late), &bounds()).is_err());
    assert!(Window::new(3_000, "identity_1".to_string(), None, &bounds()).is_err());
}

#[test]
fn snapshots_need_hosted_work_with_bounded_history() {
    let ok = SnapshotFacts { metadata_present: true, workflow_policy_present: true, policy_error: None, run_count: 199 };
    assert!(admit_snapshot(&ok).is_ok());
    let full = SnapshotFacts { run_count: RUN_HISTORY_LIMIT, ..ok };
    let error = admit_snapshot(&full).err().unwrap();
    assert_eq!(error.kind, ErrorKind::Conflict);
    assert_eq!(error.message, "hosted execution history exceeds its bounded reconciliation window");
    let source_only = SnapshotFacts { metadata_present: true, workflow_policy_present: false, policy_error: None, run_count: 0 };
    assert_eq!(admit_snapshot(&source_only).err().unwrap().message, "source-only work cannot enter the hosted controller");
    let missing = SnapshotFacts { metadata_present: false, workflow_policy_present: false, policy_error: None, run_count: 0 };
    assert_eq!(admit_snapshot(&missing).err().unwrap().message, "hosted WorkItem metadata is unavailable");
    let invalid = SnapshotFacts {
        metadata_present: true,
        workflow_policy_present: true,
        policy_error: Some("workflow policy is invalid".to_string()),
        run_count: 0,
    };
    assert_eq!(admit_snapshot(&invalid).err().unwrap().message, "workflow policy is invalid");
}
