use pharness_api::hosted_controller::staging::collection::{
    admission_time_in_bounds, baseline_step, check_identity_marker, failure_code, identity_may_fix_window,
    identity_precedes_window, initial_identity_verified, interruption_code, runtime_step, window_marker_matches,
    CollectionFailure, CollectionStage, CollectionStep,
};
use pharness_api::hosted_controller::staging::runtime::RuntimeWindow;
use pharness_api::error::ErrorKind;
use pharness_api::json::{JsonNumber, JsonValue};

const WINDOW: RuntimeWindow = RuntimeWindow { start_unix_seconds: 1_000, end_unix_seconds: 1_300 };

fn obj(members: Vec<(&str, JsonValue)>) -> JsonValue {
    JsonValue::Object(members.into_iter().map(|(k, v)| (k.to_string(), v)).collect())
}

fn num(n: i64) -> JsonValue {
    if n >= 0 {
        JsonValue::Number(JsonNumber::PosInt(n as u64))
    } else {
        JsonValue::Number(JsonNumber::NegInt(n))
    }
}

fn text(t: &str) -> JsonValue {
    JsonValue::Str(t.to_string())
}

#[test]
fn baseline_reads_happen_in_their_part_of_the_window() {
    assert_eq!(baseline_step(false, 999_999, WINDOW, false, false), CollectionStep::CollectInitialIdentity);
    assert_eq!(
        baseline_step(false, 1_000_000, WINDOW, false, false),
        CollectionStep::Fail(CollectionFailure::InitialIdentityWindowMissed)
    );
    assert_eq!(baseline_step(false, 999_999, WINDOW, true, false), CollectionStep::Wait);
    assert_eq!(baseline_step(false, 1_000_000, WINDOW, true, false), CollectionStep::CollectProbes);
    assert_eq!(
        baseline_step(false, 1_300_000, WINDOW, true, false),
        CollectionStep::Fail(CollectionFailure::FunctionalWindowMissed)
    );
    assert_eq!(baseline_step(false, 1_309_999, WINDOW, true, true), CollectionStep::Wait);
    assert_eq!(baseline_step(false, 1_310_000, WINDOW, true, true), CollectionStep::CollectFinal);
    assert_eq!(
        baseline_step(false, 1_360_000, WINDOW, true, true),
        CollectionStep::Fail(CollectionFailure::WindowExpired)
    );
    assert_eq!(
        baseline_step(true, 0, WINDOW, false, false),
        CollectionStep::Fail(CollectionFailure::WindowExpired)
    );
}

#[test]
fn runtime_reads_happen_in_their_part_of_the_window() {
    assert_eq!(runtime_step(999_999, WINDOW, false), CollectionStep::Wait);
    assert_eq!(runtime_step(1_000_000, WINDOW, false), CollectionStep::CollectProbes);
    assert_eq!(
        runtime_step(1_300_000, WINDOW, false),
        CollectionStep::Fail(CollectionFailure::FunctionalWindowMissed)
    );
    assert_eq!(runtime_step(1_300_000, WINDOW, true), CollectionStep::Wait);
    assert_eq!(runtime_step(1_310_000, WINDOW, true), CollectionStep::CollectFinal);
    assert_eq!(runtime_step(1_360_000, WINDOW, true), CollectionStep::Fail(CollectionFailure::WindowExpired));
}

#[test]
fn collection_reason_codes() {
    assert_eq!(
        failure_code(CollectionStage::Baseline, CollectionFailure::WindowExpired),
        Some("baseline_original_window_expired")
    );
    assert_eq!(
        failure_code(CollectionStage::Runtime, CollectionFailure::IdentityAllowanceExhausted),
        Some("staging_identity_observation_allowance_exhausted")
    );
    assert_eq!(failure_code(CollectionStage::Runtime, CollectionFailure::InitialIdentityWindowMissed), None);
    assert_eq!(
        interruption_code(CollectionStage::Runtime, CollectionStep::CollectFinal),
        Some("staging_final_collection_interrupted")
    );
    assert_eq!(
        interruption_code(CollectionStage::Baseline, CollectionStep::CollectInitialIdentity),
        Some("baseline_identity_collection_interrupted")
    );
    assert_eq!(interruption_code(CollectionStage::Baseline, CollectionStep::Wait), None);
}

#[test]
fn baseline_identity_must_verify_before_the_window() {
    let ok = obj(vec![("identity_state", text("verified")), ("completed_at_unix_ms", num(1_000_000))]);
    assert!(initial_identity_verified(&ok, 1_000));
    let late = obj(vec![("identity_state", text("verified")), ("completed_at_unix_ms", num(1_000_001))]);
    assert!(!initial_identity_verified(&late, 1_000));
    let undated = obj(vec![("identity_state", text("verified"))]);
    assert!(!initial_identity_verified(&undated, 1_000));
    let unverified = obj(vec![("identity_state", text("inconclusive")), ("completed_at_unix_ms", num(5))]);
    assert!(!initial_identity_verified(&unverified, 1_000));
}

#[test]
fn candidate_identity_fixes_the_window_only_when_it_precedes_it() {
    let observation = obj(vec![
        ("identity_state", text("verified")),
        ("started_at_unix_ms", num(500)),
        ("completed_at_unix_ms", num(900)),
    ]);
    assert!(identity_may_fix_window(&observation, 500, 400));
    assert!(!identity_may_fix_window(&observation, 300, 400));
    assert!(identity_precedes_window(&observation, 500, 950, 1_000));
    assert!(!identity_precedes_window(&observation, 500, 1_000, 1_000));
    assert!(!identity_precedes_window(&observation, 501, 950, 1_000));
    assert!(!identity_precedes_window(&observation, 500, 950, 800));
}

#[test]
fn identity_markers_keep_their_original_authority() {
    let marker = obj(vec![("started_at_ms", num(1_500)), ("artifact_id", text("staging_runtime_identity_1_x"))]);
    assert_eq!(check_identity_marker(&marker, "staging_runtime_identity_1_x", 1_000, 2_000).ok(), Some(1_500));
    let e = check_identity_marker(&marker, "staging_runtime_identity_2_x", 1_000, 2_000).err().unwrap();
    assert_eq!(e.kind, ErrorKind::Conflict);
    assert_eq!(e.message, "staging identity observation marker has different authority");
    assert!(check_identity_marker(&marker, "staging_runtime_identity_1_x", 1_600, 2_000).is_err());
    assert!(check_identity_marker(&marker, "staging_runtime_identity_1_x", 1_000, 1_400).is_err());
    let e = check_identity_marker(&obj(vec![]), "a", 0, 10).err().unwrap();
    assert_eq!(e.message, "staging identity observation has no original clock");

    assert!(window_marker_matches(&marker, 1_500, "staging_runtime_identity_1_x"));
    assert!(!window_marker_matches(&marker, 1_501, "staging_runtime_identity_1_x"));
}

#[test]
fn admissions_fall_inside_their_authority_and_half_hour() {
    assert!(admission_time_in_bounds(2_000, 1_000, 10_000_000, 1_500));
    assert!(!admission_time_in_bounds(999, 1_000, 10_000_000, 1_500));
    assert!(!admission_time_in_bounds(10_000_000, 1_000, 10_000_000, 1_500));
    assert!(!admission_time_in_bounds(1_801_500, 1_000, 10_000_000, 1_500));
    assert!(admission_time_in_bounds(5, 0, i64::MAX, i64::MAX - 1));
}
