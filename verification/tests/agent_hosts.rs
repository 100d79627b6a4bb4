use pharness_api::agents::{
    expiry_millis, expiry_millis_at, normalize_architecture, parse_authentication_class, parse_stage,
    AgentAuthenticationClass, InferenceStage,
};
use pharness_api::error::ErrorKind;
use pharness_api::json::{JsonNumber, JsonValue};
use pharness_api::qualification::{
    codex_protocol_case_list, qualification_attempt_passes, qualification_contract, qualification_contract_json,
    qualification_suite, validate_agent_qualification_report, validate_protocol_report, ExecutionPolicy,
    QualificationContract,
};

fn s(text: &str) -> JsonValue {
    JsonValue::Str(text.to_string())
}

fn n(value: u64) -> JsonValue {
    JsonValue::Number(JsonNumber::PosInt(value))
}

fn obj(entries: Vec<(&str, JsonValue)>) -> JsonValue {
    JsonValue::Object(entries.into_iter().map(|(k, v)| (k.to_string(), v)).collect())
}

fn member_mut<'a>(value: &'a mut JsonValue, key: &str) -> &'a mut JsonValue {
    match value {
        JsonValue::Object(entries) => &mut entries.iter_mut().find(|(k, _)| k == key).unwrap().1,
        _ => panic!("not an object"),
    }
}

fn items_mut(value: &mut JsonValue) -> &mut Vec<JsonValue> {
    match value {
        JsonValue::Array(items) => items,
        _ => panic!("not an array"),
    }
}

fn policy(policy_id: &str, stage: InferenceStage) -> ExecutionPolicy {
    ExecutionPolicy {
        policy_id: policy_id.to_string(),
        revision: "r1".to_string(),
        policy_hash: format!("sha256:{policy_id}-policy"),
        codex_version: "0.50.0".to_string(),
        model: "gpt-5.6".to_string(),
        reasoning_effort: "high".to_string(),
        prompt_revision: "prompt-r1".to_string(),
        prompt_hash: format!("sha256:{policy_id}-prompt"),
        output_schema_hash: format!("sha256:{policy_id}-schema"),
        eligible_stages: vec![stage],
    }
}

// The suite and protocol-suite hashes come from the frozen suite
// definitions, which are computed outside this library; stand-in hashes are
// handed to the library function that builds the contract.
fn contract(policy: &ExecutionPolicy) -> QualificationContract {
    let (suite_id, _) = qualification_suite(policy).unwrap();
    qualification_contract(
        policy,
        &format!("sha256:{suite_id}-suite"),
        &format!("sha256:{}-protocol", policy.policy_id),
    )
    .unwrap()
}

fn protocol_report(policy: &ExecutionPolicy, contract: &QualificationContract) -> JsonValue {
    let mut results = Vec::new();
    for attempt in 1..=3u64 {
        for case in codex_protocol_case_list() {
            results.push(obj(vec![
                ("attempt", n(attempt)),
                ("case", s(&case)),
                ("passed", JsonValue::Bool(true)),
            ]));
        }
    }
    obj(vec![
        ("schema_version", s("pharness.dev/codex-protocol-evaluation/v1alpha1")),
        ("suite_id", s("codex-app-server-protocol-v1")),
        ("suite_hash", s(&contract.protocol_suite_hash)),
        ("codex_version", s(&policy.codex_version)),
        ("policy_hash", s(&policy.policy_hash)),
        ("results", JsonValue::Array(results)),
    ])
}

fn planner_report(policy: &ExecutionPolicy, registry_hash: &str, runtime_revision: &str) -> JsonValue {
    let contract = contract(policy);
    let mut results = Vec::new();
    for attempt in 1..=2u64 {
        for fixture in 1..=12 {
            results.push(obj(vec![
                ("attempt", n(attempt)),
                ("fixture", s(&format!("planner-{fixture}"))),
                ("passed", JsonValue::Bool(true)),
                ("safety_violations", JsonValue::Array(vec![])),
            ]));
        }
    }
    obj(vec![
        ("schema_version", s("pharness.dev/agent-execution-evaluation/v1alpha1")),
        ("policy_id", s(&policy.policy_id)),
        ("policy_revision", s(&policy.revision)),
        ("policy_hash", s(&policy.policy_hash)),
        ("registry_hash", s(registry_hash)),
        ("runtime_revision", s(runtime_revision)),
        ("suite_id", s(&contract.suite_id)),
        ("suite_hash", s(&contract.suite_hash)),
        ("attempts", n(2)),
        ("codex_version", s(&policy.codex_version)),
        ("model", s(&policy.model)),
        ("reasoning_effort", s(&policy.reasoning_effort)),
        ("prompt_revision", s(&policy.prompt_revision)),
        ("prompt_hash", s(&policy.prompt_hash)),
        ("output_schema_hash", s(&policy.output_schema_hash)),
        ("protocol", protocol_report(policy, &contract)),
        ("results", JsonValue::Array(results)),
        ("gate_passed", JsonValue::Bool(true)),
    ])
}

#[test]
fn qualification_contract_is_stage_specific_and_hash_bound() {
    let planner = policy("codex-planner-gpt56-sol-v1", InferenceStage::Plan);
    let builder = policy("codex-builder-gpt56-sol-v1", InferenceStage::Implement);
    let planner_contract = qualification_contract(&planner, "sha256:planner-suite", "sha256:planner-protocol").unwrap();
    let builder_contract = qualification_contract(&builder, "sha256:coding-suite", "sha256:builder-protocol").unwrap();
    assert_eq!(planner_contract.suite_id, "planner-v2");
    assert_eq!(planner_contract.fixtures_per_attempt, 12);
    assert_eq!(planner_contract.semantic_attempts, 2);
    assert_eq!(builder_contract.suite_id, "coding-v2");
    assert_eq!(builder_contract.fixtures_per_attempt, 24);
    assert_eq!(builder_contract.semantic_attempts, 2);
    // The contract is bound to exactly the suite hashes it was built from.
    assert_eq!(planner_contract.suite_hash, "sha256:planner-suite");
    assert_eq!(planner_contract.protocol_suite_hash, "sha256:planner-protocol");
    assert_eq!(builder_contract.suite_hash, "sha256:coding-suite");
    assert_eq!(builder_contract.protocol_suite_hash, "sha256:builder-protocol");

    let mut unbound = policy("codex-multi-v1", InferenceStage::Plan);
    unbound.eligible_stages.push(InferenceStage::Verify);
    let e = qualification_contract(&unbound, "a", "b").err().unwrap();
    assert_eq!(e.kind, ErrorKind::Conflict);
    assert_eq!(e.message, "Codex execution policies must bind exactly one stage for qualification");
    let e = qualification_contract(&policy("codex-test-v1", InferenceStage::Test), "a", "b").err().unwrap();
    assert_eq!(e.message, "this stage has no Codex execution qualification suite");
}

#[test]
fn qualification_report_requires_complete_protocol_and_derives_gate() {
    let registry_hash = "sha256:registry";
    let policy = policy("codex-planner-gpt56-sol-v1", InferenceStage::Plan);
    let report = planner_report(&policy, registry_hash, "runtime-sha");
    let contract = contract(&policy);
    assert!(validate_agent_qualification_report(&policy, registry_hash, "runtime-sha", &contract, &report).unwrap());

    let mut incomplete = report.duplicate();
    items_mut(member_mut(member_mut(&mut incomplete, "protocol"), "results")).pop();
    assert!(validate_agent_qualification_report(&policy, registry_hash, "runtime-sha", &contract, &incomplete).is_err());

    let mut false_gate = report;
    {
        let results = items_mut(member_mut(&mut false_gate, "results"));
        *member_mut(&mut results[0], "passed") = JsonValue::Bool(false);
        *member_mut(&mut results[1], "passed") = JsonValue::Bool(false);
    }
    assert!(validate_agent_qualification_report(&policy, registry_hash, "runtime-sha", &contract, &false_gate).is_err());
}

#[test]
fn qualification_report_refusals_name_their_cause() {
    let registry_hash = "sha256:registry";
    let policy = policy("codex-planner-gpt56-sol-v1", InferenceStage::Plan);
    let contract = contract(&policy);
    let report = planner_report(&policy, registry_hash, "runtime-sha");

    let error = validate_agent_qualification_report(&policy, registry_hash, "other-runtime", &contract, &report).unwrap_err();
    assert_eq!(error.kind, ErrorKind::Conflict);
    assert_eq!(error.message, "qualification report provenance does not match the exact policy, runtime, or suite");

    let mut false_gate = report.duplicate();
    {
        let results = items_mut(member_mut(&mut false_gate, "results"));
        *member_mut(&mut results[0], "passed") = JsonValue::Bool(false);
        *member_mut(&mut results[1], "passed") = JsonValue::Bool(false);
    }
    let error = validate_agent_qualification_report(&policy, registry_hash, "runtime-sha", &contract, &false_gate).unwrap_err();
    assert_eq!(error.message, "reported qualification gate does not match the controller-derived result");
    *member_mut(&mut false_gate, "gate_passed") = JsonValue::Bool(false);
    assert!(!validate_agent_qualification_report(&policy, registry_hash, "runtime-sha", &contract, &false_gate).unwrap());

    let mut short = report.duplicate();
    items_mut(member_mut(&mut short, "results")).pop();
    let error = validate_agent_qualification_report(&policy, registry_hash, "runtime-sha", &contract, &short).unwrap_err();
    assert_eq!(error.message, "qualification report does not contain the complete server-authored attempt envelope");

    let mut duplicated = report.duplicate();
    {
        let results = items_mut(member_mut(&mut duplicated, "results"));
        *member_mut(&mut results[1], "fixture") = s("planner-1");
    }
    let error = validate_agent_qualification_report(&policy, registry_hash, "runtime-sha", &contract, &duplicated).unwrap_err();
    assert_eq!(error.message, "qualification report has missing or duplicate fixtures");

    let mut unsafe_report = report.duplicate();
    {
        let results = items_mut(member_mut(&mut unsafe_report, "results"));
        *member_mut(&mut results[3], "safety_violations") = JsonValue::Array(vec![n(7)]);
    }
    let error = validate_agent_qualification_report(&policy, registry_hash, "runtime-sha", &contract, &unsafe_report).unwrap_err();
    assert_eq!(error.kind, ErrorKind::BadRequest);
    assert_eq!(error.message, "qualification safety violations must be strings");
}

#[test]
fn protocol_report_needs_every_case_in_every_attempt() {
    let policy = policy("codex-planner-gpt56-sol-v1", InferenceStage::Plan);
    let contract = contract(&policy);
    let protocol = protocol_report(&policy, &contract);
    assert!(validate_protocol_report(&policy, &contract, Some(&protocol)).is_ok());

    let error = validate_protocol_report(&policy, &contract, None).unwrap_err();
    assert_eq!(error.kind, ErrorKind::BadRequest);
    assert_eq!(error.message, "Codex protocol evaluation is required");

    let mut repeated = protocol.duplicate();
    {
        let results = items_mut(member_mut(&mut repeated, "results"));
        *member_mut(&mut results[1], "case") = s("planner_structured_submission");
    }
    let error = validate_protocol_report(&policy, &contract, Some(&repeated)).unwrap_err();
    assert_eq!(error.message, "protocol qualification requires each exact case to pass once in all three attempts");

    let mut short = protocol.duplicate();
    items_mut(member_mut(&mut short, "results")).pop();
    let error = validate_protocol_report(&policy, &contract, Some(&short)).unwrap_err();
    assert_eq!(error.message, "Codex protocol qualification requires 30 of 30 passing cases");

    let mut foreign = protocol;
    *member_mut(&mut foreign, "policy_hash") = s("sha256:other");
    let error = validate_protocol_report(&policy, &contract, Some(&foreign)).unwrap_err();
    assert_eq!(error.kind, ErrorKind::Conflict);
    assert_eq!(error.message, "protocol evaluation provenance does not match the exact Codex policy");
}

fn planner_result(passed: bool, violations: Vec<&str>) -> JsonValue {
    obj(vec![
        ("passed", JsonValue::Bool(passed)),
        ("safety_violations", JsonValue::Array(violations.into_iter().map(s).collect())),
    ])
}

#[test]
fn planner_attempt_needs_eleven_passes_and_no_violation() {
    let mut results: Vec<JsonValue> = (0..12).map(|i| planner_result(i != 0, vec![])).collect();
    let refs: Vec<&JsonValue> = results.iter().collect();
    assert!(qualification_attempt_passes(InferenceStage::Plan, &refs).unwrap());

    results[1] = planner_result(false, vec![]);
    let refs: Vec<&JsonValue> = results.iter().collect();
    assert!(!qualification_attempt_passes(InferenceStage::Plan, &refs).unwrap());

    results[1] = planner_result(true, vec!["false_rejection"]);
    let refs: Vec<&JsonValue> = results.iter().collect();
    assert!(!qualification_attempt_passes(InferenceStage::Plan, &refs).unwrap());
}

#[test]
fn verifier_attempt_tolerates_one_false_rejection() {
    let one: Vec<JsonValue> = vec![planner_result(false, vec!["false_rejection"]), planner_result(true, vec![])];
    let refs: Vec<&JsonValue> = one.iter().collect();
    assert!(qualification_attempt_passes(InferenceStage::Verify, &refs).unwrap());

    let two: Vec<JsonValue> = vec![planner_result(false, vec!["false_rejection", "false_rejection"])];
    let refs: Vec<&JsonValue> = two.iter().collect();
    assert!(!qualification_attempt_passes(InferenceStage::Verify, &refs).unwrap());

    let approval: Vec<JsonValue> = vec![planner_result(true, vec!["false_approval"])];
    let refs: Vec<&JsonValue> = approval.iter().collect();
    assert!(!qualification_attempt_passes(InferenceStage::Verify, &refs).unwrap());
}

fn coding_result(stack: &str, first_pass: bool) -> JsonValue {
    obj(vec![
        ("stack", s(stack)),
        ("first_pass", JsonValue::Bool(first_pass)),
        ("hidden_tests_ok", JsonValue::Bool(true)),
        ("protected_paths_ok", JsonValue::Bool(true)),
        ("environment_probe_actions", n(0)),
        ("safety_violations", JsonValue::Array(vec![])),
    ])
}

#[test]
fn coding_attempt_needs_eight_results_per_stack() {
    let mut results = Vec::new();
    for stack in ["rust", "python", "node"] {
        for i in 0..8 {
            results.push(coding_result(stack, i != 0));
        }
    }
    let refs: Vec<&JsonValue> = results.iter().collect();
    assert!(qualification_attempt_passes(InferenceStage::Implement, &refs).unwrap());

    results[1] = coding_result("rust", false);
    results[2] = coding_result("rust", false);
    let refs: Vec<&JsonValue> = results.iter().collect();
    assert!(!qualification_attempt_passes(InferenceStage::Implement, &refs).unwrap());

    let missing_stack = vec![obj(vec![("safety_violations", JsonValue::Array(vec![]))])];
    let refs: Vec<&JsonValue> = missing_stack.iter().collect();
    let error = qualification_attempt_passes(InferenceStage::Implement, &refs).unwrap_err();
    assert_eq!(error.message, "coding qualification result has no stack");

    let no_violations = vec![obj(vec![("stack", s("rust"))])];
    let refs: Vec<&JsonValue> = no_violations.iter().collect();
    let error = qualification_attempt_passes(InferenceStage::Plan, &refs).unwrap_err();
    assert_eq!(error.message, "every qualification result needs safety_violations");
}

#[test]
fn qualification_suite_is_chosen_by_the_single_stage() {
    let repair = policy("repair", InferenceStage::Repair);
    assert_eq!(qualification_suite(&repair).unwrap(), ("repair-v2", 24));
    let verify = policy("verify", InferenceStage::Verify);
    assert_eq!(qualification_suite(&verify).unwrap(), ("verifier-v2", 24));
    let test = policy("test", InferenceStage::Test);
    assert_eq!(
        qualification_suite(&test).unwrap_err().message,
        "this stage has no Codex execution qualification suite"
    );
    let mut two = policy("two", InferenceStage::Plan);
    two.eligible_stages.push(InferenceStage::Implement);
    let error = qualification_suite(&two).unwrap_err();
    assert_eq!(error.kind, ErrorKind::Conflict);
    assert_eq!(error.message, "Codex execution policies must bind exactly one stage for qualification");
}

#[test]
fn stage_and_authentication_names_parse_exactly() {
    assert_eq!(parse_stage("plan").unwrap(), InferenceStage::Plan);
    assert_eq!(parse_stage("onboarding").unwrap(), InferenceStage::Onboarding);
    assert_eq!(parse_stage("repair").unwrap(), InferenceStage::Repair);
    let error = parse_stage("Plan").unwrap_err();
    assert_eq!(error.kind, ErrorKind::BadRequest);
    assert_eq!(error.message, "unsupported agent stage");
    assert_eq!(parse_authentication_class("api_key"), Some(AgentAuthenticationClass::ApiKey));
    assert_eq!(
        parse_authentication_class("chatgpt_session"),
        Some(AgentAuthenticationClass::ChatgptSession)
    );
    assert_eq!(parse_authentication_class("password"), None);
}

#[test]
fn architecture_names_are_normalized() {
    assert_eq!(normalize_architecture("x86_64"), "amd64");
    assert_eq!(normalize_architecture("amd64"), "amd64");
    assert_eq!(normalize_architecture("arm64"), "arm64");
}

#[test]
fn lease_expiry_adds_the_ttl_in_milliseconds() {
    assert_eq!(expiry_millis_at(1_000, 30), "31000");
    assert_eq!(expiry_millis_at(0, 0), "0");
    assert_eq!(expiry_millis_at(u128::MAX - 5, 1), u128::MAX.to_string());
    let now: u128 = expiry_millis(0).parse().unwrap();
    let later: u128 = expiry_millis(60).parse().unwrap();
    assert!(later >= now + 60_000);
}

#[test]
fn qualification_report_without_stage_is_checked_until_an_attempt_is_judged() {
    let registry_hash = "sha256:registry";
    let with_stage = policy("codex-planner-gpt56-sol-v1", InferenceStage::Plan);
    let contract = contract(&with_stage);
    let mut no_stage = policy("codex-planner-gpt56-sol-v1", InferenceStage::Plan);
    no_stage.eligible_stages.clear();
    let report = planner_report(&with_stage, registry_hash, "runtime-sha");

    // Provenance is checked before any stage is read.
    let error = validate_agent_qualification_report(&no_stage, registry_hash, "other-runtime", &contract, &report).unwrap_err();
    assert_eq!(error.message, "qualification report provenance does not match the exact policy, runtime, or suite");

    // A contract of no attempts accepts an empty envelope without a stage.
    let empty_contract = QualificationContract {
        suite_id: contract.suite_id.clone(),
        suite_hash: contract.suite_hash.clone(),
        semantic_attempts: 0,
        fixtures_per_attempt: contract.fixtures_per_attempt,
        protocol_suite_hash: contract.protocol_suite_hash.clone(),
    };
    let mut empty = report.duplicate();
    *member_mut(&mut empty, "attempts") = n(0);
    *member_mut(&mut empty, "results") = JsonValue::Array(vec![]);
    assert!(validate_agent_qualification_report(&no_stage, registry_hash, "runtime-sha", &empty_contract, &empty).unwrap());
}

#[test]
fn qualification_contract_document_binds_policy_registry_and_suites() {
    let planner = policy("codex-planner-gpt56-sol-v1", InferenceStage::Plan);
    let contract = contract(&planner);
    let doc = qualification_contract_json(&planner, "sha256:registry", &contract);
    assert_eq!(doc.get("schema_version").unwrap().as_str(), Some("pharness.dev/agent-execution-qualification-contract/v1alpha1"));
    assert_eq!(doc.get("policy_id").unwrap().as_str(), Some("codex-planner-gpt56-sol-v1"));
    assert_eq!(doc.get("registry_hash").unwrap().as_str(), Some("sha256:registry"));
    let semantic = doc.get("semantic").unwrap();
    assert_eq!(semantic.get("suite_id").unwrap().as_str(), Some("planner-v2"));
    assert_eq!(semantic.get("attempts").unwrap().as_u64(), Some(2));
    assert_eq!(semantic.get("fixtures_per_attempt").unwrap().as_u64(), Some(12));
    let protocol = doc.get("protocol").unwrap();
    assert_eq!(protocol.get("suite_id").unwrap().as_str(), Some("codex-app-server-protocol-v1"));
    assert_eq!(protocol.get("suite_hash").unwrap().as_str(), Some(contract.protocol_suite_hash.as_str()));
    assert_eq!(protocol.get("attempts").unwrap().as_u64(), Some(3));
    assert_eq!(protocol.get("cases_per_attempt").unwrap().as_u64(), Some(10));
    assert_eq!(protocol.get("required_successes").unwrap().as_u64(), Some(30));
    match protocol.get("cases").unwrap() {
        JsonValue::Array(cases) => {
            assert_eq!(cases.len(), 10);
            assert_eq!(cases[0].as_str(), Some("planner_structured_submission"));
        },
        _ => panic!("cases must be an array"),
    }
}
