use pharness_api::error::ErrorKind;
use pharness_api::json::JsonValue;
use pharness_api::preparation::{
    prepared_step, preparation_step, terminated_preparation_condition, PreparationRecord, PreparationStep,
    PreparedStep,
};
use pharness_api::source_delivery::{
    source_job_condition, source_operation_step, SourceAuthority, SourceIntent, SourceStep,
};

fn s(text: &str) -> JsonValue {
    JsonValue::Str(text.to_string())
}

fn obj(entries: Vec<(&str, JsonValue)>) -> JsonValue {
    JsonValue::Object(entries.into_iter().map(|(k, v)| (k.to_string(), v)).collect())
}

fn intent(status: &str) -> SourceIntent {
    SourceIntent {
        id: "sdi-1".to_string(),
        status: status.to_string(),
        repository_id: "repo-1".to_string(),
        base_commit: "c0ffee".to_string(),
        source_repo: "example/app".to_string(),
        authorization: obj(vec![
            ("work_item_id", s("wi-1")),
            ("workflow_policy_hash", s("sha256:policy")),
            ("writer_execution_id", s("srcwriter-1")),
        ]),
        writer_execution_id: None,
        observer_execution_id: None,
        has_pull_request: false,
        updated_at: "2024-01-01T00:00:00Z".to_string(),
    }
}

fn authority() -> SourceAuthority {
    SourceAuthority {
        work_item_id: "wi-1".to_string(),
        repository_id: "repo-1".to_string(),
        work_item_source_commit: Some("c0ffee".to_string()),
        policy_source_repo: "example/app".to_string(),
        workflow_policy_hash: Some("sha256:policy".to_string()),
        source_delivery_authorized: true,
        observe_authorized: true,
    }
}

#[test]
fn source_intent_must_match_the_work_item_authority() {
    let mut other = authority();
    other.work_item_source_commit = Some("deadbeef".to_string());
    let error = source_operation_step(&intent("authorized"), &other, obj(vec![]), "active", false, 0, 10).err().unwrap();
    assert_eq!(error.kind, ErrorKind::Conflict);
    assert_eq!(error.message, "source intent no longer matches this WorkItem's recorded authority");
    let mut unauthorized = authority();
    unauthorized.source_delivery_authorized = false;
    assert!(source_operation_step(&intent("authorized"), &unauthorized, obj(vec![]), "active", false, 0, 10).is_err());
}

#[test]
fn settled_source_outcomes_are_final() {
    match source_operation_step(&intent("merged"), &authority(), obj(vec![]), "paused", true, 0, 10).ok().unwrap() {
        SourceStep::Settled { merged, condition, .. } => {
            assert!(merged);
            assert_eq!(condition.0, "progressing");
        },
        _ => panic!("expected a settled outcome"),
    }
    match source_operation_step(&intent("pull_request_closed"), &authority(), JsonValue::Null, "active", false, 0, 10).ok().unwrap() {
        SourceStep::Settled { merged, condition, .. } => {
            assert!(!merged);
            assert_eq!(condition.0, "blocked");
        },
        _ => panic!("expected a settled outcome"),
    }
}

#[test]
fn the_planned_writer_is_dispatched_once() {
    match source_operation_step(&intent("authorized"), &authority(), obj(vec![]), "active", false, 0, 10).ok().unwrap() {
        SourceStep::DispatchWriter { execution_id, .. } => assert_eq!(execution_id, "srcwriter-1"),
        _ => panic!("expected a dispatch"),
    }
    let mut partial = intent("authorized");
    partial.writer_execution_id = Some("srcwriter-1".to_string());
    let error = source_operation_step(&partial, &authority(), obj(vec![]), "active", false, 0, 10).err().unwrap();
    assert_eq!(error.message, "partial source publication has conflicting execution state");
    match source_operation_step(&intent("authorized"), &authority(), obj(vec![]), "active", false, 10, 10).ok().unwrap() {
        SourceStep::Report(c) => {
            assert_eq!(c.0, "wait_expired");
            assert_eq!(c.1, "The source intent is recorded but no new writer is being dispatched.");
        },
        _ => panic!("expected a report"),
    }
    match source_operation_step(&intent("head_drift"), &authority(), obj(vec![]), "active", false, 0, 10).ok().unwrap() {
        SourceStep::Report(c) => assert_eq!(c.0, "blocked"),
        _ => panic!("expected a report"),
    }
    assert!(matches!(
        source_operation_step(&intent("writer_dispatched"), &authority(), obj(vec![]), "active", false, 0, 10).ok().unwrap(),
        SourceStep::Continue { .. }
    ));
}

#[test]
fn finished_source_jobs_without_outcomes_block() {
    let c = source_job_condition("job-1", "failed", false, false);
    assert_eq!(c.0, "blocked");
    assert_eq!(
        c.1,
        "Source Job job-1 is failed without its outcome recorded. Its identity and repository lock are retained; it is not recreated."
    );
    assert_eq!(source_job_condition("job-1", "succeeded", true, false).0, "progressing");
    let c = source_job_condition("job-1", "running", false, true);
    assert_eq!(c.0, "wait_expired");
    assert_eq!(c.1, "Source Job job-1 is running. The original execution identity is retained.");
}

fn preparation(status: &str) -> PreparationRecord {
    PreparationRecord {
        work_item_id: "wi-1".to_string(),
        run_id: Some("run-1".to_string()),
        source_commit: "c0ffee".to_string(),
        environment_profile_id: "rust".to_string(),
        status: status.to_string(),
        error: None,
    }
}

#[test]
fn preparation_must_belong_to_the_run() {
    assert!(matches!(
        preparation_step(&preparation("running"), "wi-1", "run-1", Some("c0ffee"), "rust").ok().unwrap(),
        PreparationStep::Observe
    ));
    assert!(preparation_step(&preparation("running"), "wi-2", "run-1", Some("c0ffee"), "rust").is_err());
    assert!(preparation_step(&preparation("succeeded"), "wi-1", "run-1", Some("c0ffee"), "rust").is_err());
    let mut failed = preparation("failed");
    failed.error = Some("image pull failed".to_string());
    match preparation_step(&failed, "wi-1", "run-1", Some("c0ffee"), "rust").ok().unwrap() {
        PreparationStep::FailRun { reason, condition } => {
            assert_eq!(reason, "image pull failed");
            assert_eq!(condition.0, "blocked");
        },
        PreparationStep::Observe => panic!("expected a failure"),
    }
}

#[test]
fn absent_preparation_jobs_are_only_started_for_active_queued_work() {
    assert!(matches!(prepared_step("queued", Some("failed"), "active", false), PreparedStep::Terminated));
    match prepared_step("queued", None, "active", false) {
        PreparedStep::MarkDispatched { start_job, .. } => assert!(start_job),
        _ => panic!("expected a dispatch"),
    }
    match prepared_step("dispatched", Some("running"), "paused", false) {
        PreparedStep::MarkDispatched { start_job, .. } => assert!(!start_job),
        _ => panic!("expected a dispatch"),
    }
    match prepared_step("queued", None, "paused", false) {
        PreparedStep::Report(c) => assert_eq!(c.0, "blocked"),
        _ => panic!("expected a report"),
    }
    match prepared_step("dispatched", None, "active", false) {
        PreparedStep::Report(c) => assert_eq!(
            c.1,
            "The recorded preparation Job is absent. An acknowledged, paused, or expired operation is not replayed."
        ),
        _ => panic!("expected a report"),
    }
    assert_eq!(terminated_preparation_condition(true, true).0, "progressing");
    assert_eq!(terminated_preparation_condition(false, false).0, "progressing");
    assert_eq!(terminated_preparation_condition(false, true).0, "blocked");
}
