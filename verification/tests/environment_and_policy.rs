use pharness_api::deployment::{deployment_contract_spec, DeploymentContractSpec};
use pharness_api::environment::{profile_response, select_profile, EnvironmentProfile};
use pharness_api::error::ErrorKind;
use pharness_api::hosted_policy::{
    ensure_hosted_deployment_contract, hosted_binding, stage_qualification, DeliveryBinding, PolicyQualification,
    StageQualificationTarget,
};
use pharness_api::json::{JsonNumber, JsonValue};

fn profile(id: &str, active: bool, allowlist: &[&str]) -> EnvironmentProfile {
    EnvironmentProfile {
        id: id.to_string(),
        active,
        image: "registry/env@sha256:1".to_string(),
        revision: "r1".to_string(),
        platform: "linux/amd64".to_string(),
        required_executables: vec!["cargo".to_string()],
        preparation_strategy: Some("container".to_string()),
        service_account: None,
        repository_allowlist: allowlist.iter().map(|s| s.to_string()).collect(),
        validation_error: None,
    }
}

#[test]
fn profiles_are_selected_by_id_activity_and_repository() {
    let profiles = vec![
        profile("rust", true, &["https://github.com/example/app/"]),
        profile("node", false, &[]),
        profile("any", true, &[]),
    ];
    assert_eq!(select_profile(&profiles, "rust", "https://github.com/example/app"), Ok(0));
    assert_eq!(select_profile(&profiles, "rust", "https://github.com/example/app//"), Ok(0));
    assert_eq!(select_profile(&profiles, "any", "https://github.com/other/x"), Ok(2));
    assert_eq!(
        select_profile(&profiles, "rust", "https://github.com/other/x"),
        Err("environment profile rust is not allowed for repository https://github.com/other/x".to_string())
    );
    assert_eq!(select_profile(&profiles, "node", "x"), Err("environment profile node is inactive".to_string()));
    assert_eq!(select_profile(&profiles, "go", "x"), Err("environment profile go does not exist".to_string()));
    let mut invalid = profile("bad", true, &[]);
    invalid.validation_error = Some("image must be pinned by digest".to_string());
    assert_eq!(select_profile(&[invalid], "bad", "x"), Err("image must be pinned by digest".to_string()));
}

#[test]
fn profile_responses_list_blockers() {
    let ok = profile_response(&profile("rust", true, &[]));
    assert_eq!(ok.status, "configured_unverified");
    assert!(ok.blockers.is_empty());
    assert_eq!(ok.preparation_strategy, "container");
    let mut broken = profile("rust", false, &[]);
    broken.validation_error = Some("bad image".to_string());
    broken.preparation_strategy = None;
    let response = profile_response(&broken);
    assert_eq!(response.status, "unavailable");
    assert_eq!(response.blockers, vec!["bad image", "profile is inactive"]);
    assert_eq!(response.preparation_strategy, "unknown");
}

fn contract(health_path: &str) -> DeploymentContractSpec {
    let document = JsonValue::Object(vec![
        ("operation".to_string(), JsonValue::Str("sync".to_string())),
        ("workload_kind".to_string(), JsonValue::Str("Deployment".to_string())),
        ("workload_name".to_string(), JsonValue::Str("web".to_string())),
        ("service_name".to_string(), JsonValue::Str("web".to_string())),
        ("service_port".to_string(), JsonValue::Number(JsonNumber::PosInt(8080))),
        ("health_path".to_string(), JsonValue::Str(health_path.to_string())),
        (
            "post_sync_verification".to_string(),
            JsonValue::Object(vec![("service_healthz".to_string(), JsonValue::Str("required".to_string()))]),
        ),
    ]);
    deployment_contract_spec(&document).ok().unwrap()
}

#[test]
fn hosted_contracts_need_an_exact_health_probe() {
    assert!(ensure_hosted_deployment_contract(&contract("/healthz")).is_ok());
    let error = ensure_hosted_deployment_contract(&contract("healthz")).unwrap_err();
    assert_eq!(error.kind, ErrorKind::Conflict);
}

fn binding() -> DeliveryBinding {
    DeliveryBinding {
        product_id: "prod-1".to_string(),
        repository_id: "repo-1".to_string(),
        source_repo: "https://github.com/example/app".to_string(),
        source_ref: "main".to_string(),
        gitops_repo: "example/gitops".to_string(),
    }
}

#[test]
fn hosted_binding_must_match_the_repository_and_allowlists() {
    let bindings = vec![binding()];
    let repos = vec!["example/gitops".to_string()];
    let none: Vec<String> = vec![];
    assert_eq!(
        hosted_binding(&bindings, "prod-1", "repo-1", "https://github.com/example/app", "main", Some(&repos), Some(&repos)).unwrap(),
        0
    );
    assert_eq!(
        hosted_binding(&bindings, "prod-2", "repo-1", "https://github.com/example/app", "main", Some(&repos), Some(&repos))
            .unwrap_err()
            .message,
        "this Product/Repository has no hosted delivery binding"
    );
    assert_eq!(
        hosted_binding(&bindings, "prod-1", "repo-1", "https://github.com/example/app", "develop", Some(&repos), Some(&repos))
            .unwrap_err()
            .message,
        "the hosted delivery binding no longer matches the registered repository"
    );
    assert_eq!(
        hosted_binding(&bindings, "prod-1", "repo-1", "https://github.com/example/app", "main", Some(&repos), Some(&none))
            .unwrap_err()
            .message,
        "the separately authorized GitOps writer and observer do not allow this delivery repository"
    );
    assert!(hosted_binding(&bindings, "prod-1", "repo-1", "https://github.com/example/app", "main", None, Some(&repos)).is_err());
}

fn qualification(profile: &str, attempts: u32) -> PolicyQualification {
    PolicyQualification {
        agent_profile_id: profile.to_string(),
        verdict: "passed".to_string(),
        runtime_revision: "rt-1".to_string(),
        suite_id: "coding-v2".to_string(),
        suite_hash: "sha256:suite".to_string(),
        attempts,
        policy_hash: "sha256:policy".to_string(),
        target_hash: "sha256:target".to_string(),
        agent_profile_hash: "sha256:profile".to_string(),
    }
}

fn target(profile: &str) -> StageQualificationTarget {
    StageQualificationTarget {
        profile_id: profile.to_string(),
        runtime_revision: "rt-1".to_string(),
        suite_id: "coding-v2".to_string(),
        suite_hash: "sha256:suite".to_string(),
        selection_policy_hash: Some("sha256:policy".to_string()),
        selection_target_hash: Some("sha256:target".to_string()),
        agent_profile_hash: "sha256:profile".to_string(),
    }
}

#[test]
fn live_stages_need_their_exact_qualification() {
    let qualifications = vec![qualification("repo-planner", 1), qualification("repo-builder", 2)];
    assert_eq!(stage_qualification(&qualifications, "implement", &target("repo-builder")).unwrap(), 1);
    let once = vec![qualification("repo-builder", 1)];
    let error = stage_qualification(&once, "implement", &target("repo-builder")).unwrap_err();
    assert_eq!(error.kind, ErrorKind::Conflict);
    assert_eq!(
        error.message,
        "implement requires a passing gateway qualification for this runtime, frozen suite, and policy"
    );
    let mut other_runtime = target("repo-planner");
    other_runtime.runtime_revision = "rt-2".to_string();
    assert!(stage_qualification(&qualifications, "plan", &other_runtime).is_err());
    assert!(stage_qualification(&qualifications, "verify", &target("repo-verifier")).is_err());
}
