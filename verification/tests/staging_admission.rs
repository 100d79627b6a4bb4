use pharness_api::error::ErrorKind;
use pharness_api::gitops::StoredGitOpsChangeSet;
use pharness_api::hosted_controller::staging::admission::{
    admit_staging_attempt, change_set_document, check_plan_authority, check_plan_replacement, check_reader_context,
    check_staging_change_set, context_may_advance, ChangeSetExpectation,
};
use pharness_api::json::{json_equal, JsonValue};

fn s(t: &str) -> JsonValue {
    JsonValue::Str(t.to_string())
}

fn obj(members: Vec<(&str, JsonValue)>) -> JsonValue {
    JsonValue::Object(members.into_iter().map(|(k, v)| (k.to_string(), v)).collect())
}

fn document() -> JsonValue {
    change_set_document(&obj(vec![("execution_id", s("sexec_1"))]), "staging_plan_sexec_1", "sha256:plan", "abc123")
}

fn expectation() -> ChangeSetExpectation {
    ChangeSetExpectation {
        id: "gcs_staging_1".to_string(),
        work_item_id: "wi_1".to_string(),
        pipeline_intent_id: "pi_1".to_string(),
        source_change_set_id: "cs_1".to_string(),
        plan_artifact_id: "staging_plan_sexec_1".to_string(),
        document: document(),
        document_hash: "sha256:doc".to_string(),
        gitops_repository: "https://github.com/org/gitops.git".to_string(),
        kustomization_path: "apps/finance/staging".to_string(),
        image_name: "ghcr.io/org/finance".to_string(),
        image_ref: "ghcr.io/org/finance@sha256:1".to_string(),
    }
}

fn change_set() -> StoredGitOpsChangeSet {
    StoredGitOpsChangeSet {
        id: "gcs_staging_1".to_string(),
        work_item_id: "wi_1".to_string(),
        work_plan_id: "wp_1".to_string(),
        source_change_set_id: "cs_1".to_string(),
        pipeline_intent_id: "pi_1".to_string(),
        deployment_intent_id: "dintent_staging_1".to_string(),
        run_id: "run_1".to_string(),
        status: "approved".to_string(),
        revision: 1,
        material_hash: "sha256:doc".to_string(),
        gitops_repo: "https://github.com/org/gitops.git".to_string(),
        gitops_ref: "main".to_string(),
        head_branch: "main".to_string(),
        kustomization_path: "apps/finance/staging".to_string(),
        image_name: "ghcr.io/org/finance".to_string(),
        image_ref: "ghcr.io/org/finance@sha256:1".to_string(),
        gitops_change_set_json: document(),
    }
}

#[test]
fn plans_are_bound_to_authority_and_never_replaced() {
    assert!(check_plan_authority("a", "a").is_ok());
    let e = check_plan_authority("b", "a").err().unwrap();
    assert_eq!(e.message, "staging plan has different authority");
    assert!(check_plan_replacement(false, false).is_ok());
    let e = check_plan_replacement(true, true).err().unwrap();
    assert_eq!(e.message, "the original staging plan cannot be replaced after observation");
    let e = check_plan_replacement(false, true).err().unwrap();
    assert_eq!(e.kind, ErrorKind::Conflict);
    assert_eq!(e.message, "staging write was admitted; its plan cannot change");
}

#[test]
fn one_write_is_admitted_once() {
    assert!(admit_staging_attempt(Some("p"), "a", "a", "p", false, false).is_ok());
    let e = admit_staging_attempt(None, "a", "a", "p", false, false).err().unwrap();
    assert_eq!(e.message, "staging admission requires its persisted digest diff");
    let e = admit_staging_attempt(Some("p"), "a", "a", "q", false, false).err().unwrap();
    assert_eq!(e.message, "staging admission differs from the saved authority or plan");
    let e = admit_staging_attempt(Some("p"), "a", "a", "p", false, true).err().unwrap();
    assert_eq!(
        e.message,
        "the original staging write was already admitted; observe GitHub without another mutation"
    );
}

#[test]
fn reader_context_and_advancement() {
    assert!(check_reader_context(false, false, false).is_ok());
    assert!(check_reader_context(true, true, true).is_ok());
    let e = check_reader_context(true, true, false).err().unwrap();
    assert_eq!(e.message, "the bounded staging reader has not been dispatched");
    assert!(check_reader_context(true, false, true).is_err());
    assert!(context_may_advance(false, false, true, true));
    assert!(!context_may_advance(true, false, true, true));
    assert!(!context_may_advance(false, true, true, true));
    assert!(!context_may_advance(false, false, true, false));
}

#[test]
fn staging_change_set_is_the_original_plan() {
    let expected_doc = obj(vec![
        ("authority", obj(vec![("execution_id", s("sexec_1"))])),
        ("delivery_mode", s("atomic_commit_expected_head")),
        ("expected_head_oid", s("abc123")),
        ("plan_artifact_id", s("staging_plan_sexec_1")),
        ("plan_hash", s("sha256:plan")),
        ("production_authorized", JsonValue::Bool(false)),
        ("scope", s("staging")),
        ("target_ref", s("main")),
    ]);
    assert!(json_equal(&document(), &expected_doc));
    assert!(check_staging_change_set(&change_set(), "staging_plan_sexec_1", &expectation()).is_ok());
    let mut other = change_set();
    other.head_branch = "feature".to_string();
    let e = check_staging_change_set(&other, "staging_plan_sexec_1", &expectation()).err().unwrap();
    assert_eq!(e.message, "staging GitOps ChangeSet differs from the original one-file plan");
    assert!(check_staging_change_set(&change_set(), "staging_plan_other", &expectation()).is_err());
}
