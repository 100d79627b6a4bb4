use pharness_api::error::ErrorKind;
use pharness_api::hosted_controller::build_grant::{
    build_execution_state, build_grant_expiry, build_grant_id, build_grant_policy, build_grant_reason,
    build_grant_scope, check_build_grant, check_build_identity, BuildGrantStep, StoredGrant,
};
use pharness_api::json::{json_equal, JsonNumber, JsonValue};

fn s(t: &str) -> JsonValue {
    JsonValue::Str(t.to_string())
}

fn obj(members: Vec<(&str, JsonValue)>) -> JsonValue {
    JsonValue::Object(members.into_iter().map(|(k, v)| (k.to_string(), v)).collect())
}

fn list(t: &str) -> JsonValue {
    JsonValue::Array(vec![s(t)])
}

fn scope() -> JsonValue {
    build_grant_scope(&s("dev"), "wp_1", "cs_1", "pi_1")
}

fn grant(expires_at: &str) -> StoredGrant {
    StoredGrant {
        status: "active".to_string(),
        subject: "controller".to_string(),
        scope: scope(),
        policy: build_grant_policy(),
        expires_at: Some(expires_at.to_string()),
    }
}

#[test]
fn build_grant_identity_and_expiry() {
    assert_eq!(build_grant_id("workflowop_abc"), "pgrant_build_abc");
    assert_eq!(build_grant_id("op_abc"), "pgrant_build_op_abc");
    assert_eq!(build_grant_expiry(1_000, 10_000_000), 1_801_000);
    assert_eq!(build_grant_expiry(1_000, 5_000), 5_000);
    assert_eq!(build_grant_expiry(i64::MAX - 5, i64::MAX), i64::MAX);
    assert_eq!(
        build_grant_reason("workflowop_abc"),
        "Saved hosted workflow permits the non-deploying build operation workflowop_abc"
    );
}

#[test]
fn build_grant_scope_names_exactly_one_pipeline() {
    let expected = obj(vec![
        ("actions", list("tekton_trigger_pipeline")),
        ("capability_kinds", list("tekton_start_run")),
        ("change_set_ids", list("cs_1")),
        ("environment", s("dev")),
        ("max_risk", s("high")),
        ("namespaces", list("tekton-pipelines")),
        ("pipeline_intent_ids", list("pi_1")),
        ("production_impacting", JsonValue::Bool(false)),
        ("work_plan_ids", list("wp_1")),
    ]);
    assert!(json_equal(&scope(), &expected));
    assert!(json_equal(&build_grant_policy(), &obj(vec![("policy_mode", s("supervised_autonomy"))])));
}

#[test]
fn build_grants_are_reused_only_unchanged_and_never_renewed() {
    let g = grant("1801000");
    assert_eq!(check_build_grant(Some(&g), "controller", &scope(), 1_801_000, true, 5).ok(), Some(BuildGrantStep::Reuse));
    let e = check_build_grant(Some(&g), "controller", &scope(), 1_801_000, false, 5).err().unwrap();
    assert_eq!(e.kind, ErrorKind::Conflict);
    assert_eq!(
        e.message,
        "original hosted build grant expired, was revoked, or changed; no replacement authority was issued"
    );
    assert!(check_build_grant(Some(&g), "controller", &scope(), 1_801_001, true, 5).is_err());
    assert!(check_build_grant(Some(&g), "someone", &scope(), 1_801_000, true, 5).is_err());
    let other_scope = build_grant_scope(&s("prod"), "wp_1", "cs_1", "pi_1");
    assert!(check_build_grant(Some(&g), "controller", &other_scope, 1_801_000, true, 5).is_err());
    let mut revoked = grant("1801000");
    revoked.status = "revoked".to_string();
    assert!(check_build_grant(Some(&revoked), "controller", &scope(), 1_801_000, true, 5).is_err());

    assert_eq!(check_build_grant(None, "controller", &scope(), 1_000, true, 999).ok(), Some(BuildGrantStep::Issue));
    let e = check_build_grant(None, "controller", &scope(), 1_000, true, 1_000).err().unwrap();
    assert_eq!(e.message, "the original hosted build authorization window expired");
}

#[test]
fn build_execution_identity() {
    let dispatch = obj(vec![
        ("execution_id", s("exec_1")),
        ("permission_grant_id", s("pgrant_build_abc")),
        ("pipeline_run_manifest", obj(vec![("metadata", obj(vec![("name", s("run-1"))]))])),
        ("manifest_hash", s("sha256:x")),
    ]);
    let state = build_execution_state(&dispatch, "workflowop_abc");
    let expected = obj(vec![
        ("execution_id", s("exec_1")),
        ("hosted_operation_id", s("workflowop_abc")),
        ("permission_grant_id", s("pgrant_build_abc")),
        ("pipeline_run_name", s("run-1")),
        ("pipeline_run_namespace", s("tekton-pipelines")),
        ("state", s("dispatching")),
    ]);
    assert!(json_equal(&state, &expected));

    let intent = obj(vec![("execution_state", state)]);
    assert!(check_build_identity(&intent, &dispatch, "workflowop_abc").is_ok());
    let e = check_build_identity(&intent, &dispatch, "workflowop_other").err().unwrap();
    assert_eq!(e.message, "hosted build execution identity changed");
    let moved = obj(vec![("execution_id", JsonValue::Number(JsonNumber::PosInt(1)))]);
    assert!(check_build_identity(&intent, &moved, "workflowop_abc").is_err());
}
