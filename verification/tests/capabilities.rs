use pharness_api::capabilities::{
    admit_direct_capability, direct_artifact_kind, direct_capability_evidence_plan, direct_capability_outcome,
    direct_capability_result_summary, direct_capability_timeout_ms, direct_evidence_source,
    direct_observation_kind, direct_observation_namespace, direct_observation_resource_kind,
    direct_observation_resource_ref, direct_observation_subject, is_direct_capability_action, ActionKind,
    AgentAction, CapabilityDisposition, ToolResult, ToolRun,
};
use pharness_api::error::ErrorKind;
use pharness_api::json::{json_equal, JsonNumber, JsonValue};
use pharness_api::text::truncate_audit_text;

fn s(text: &str) -> JsonValue {
    JsonValue::Str(text.to_string())
}

fn obj(entries: Vec<(&str, JsonValue)>) -> JsonValue {
    JsonValue::Object(entries.into_iter().map(|(k, v)| (k.to_string(), v)).collect())
}

fn member<'a>(value: &'a JsonValue, key: &str) -> Option<&'a JsonValue> {
    match value {
        JsonValue::Object(entries) => entries.iter().rev().find(|(k, _)| k == key).map(|(_, v)| v),
        _ => None,
    }
}

fn action(kind: ActionKind, name: &str) -> AgentAction {
    AgentAction { kind, kind_name: name.to_string(), id: "act-1".to_string() }
}

#[test]
fn only_read_actions_run_directly() {
    assert!(is_direct_capability_action(&action(ActionKind::KubernetesGet, "kubernetes_get")));
    assert!(is_direct_capability_action(&action(ActionKind::RegistryInspectImage, "registry_inspect_image")));
    assert!(!is_direct_capability_action(&action(ActionKind::Other, "kubernetes_apply")));
    let error = admit_direct_capability(&action(ActionKind::Other, "kubernetes_apply"), None, 30_000, 120_000).unwrap_err();
    assert_eq!(error.kind, ErrorKind::BadRequest);
    assert_eq!(error.message, "kubernetes_apply is not exposed through direct capability execution");
    assert_eq!(admit_direct_capability(&action(ActionKind::LokiLogSummary, "loki"), Some(500), 30_000, 120_000).unwrap(), 500);
}

#[test]
fn timeout_is_clamped_between_one_and_the_maximum() {
    assert_eq!(direct_capability_timeout_ms(None, 30_000, 120_000), 30_000);
    assert_eq!(direct_capability_timeout_ms(Some(0), 30_000, 120_000), 1);
    assert_eq!(direct_capability_timeout_ms(Some(500_000), 30_000, 120_000), 120_000);
    assert_eq!(direct_capability_timeout_ms(Some(45_000), 30_000, 120_000), 45_000);
}

fn tool_result(content: JsonValue) -> ToolResult {
    ToolResult { status: "ok".to_string(), summary: "read one pod".to_string(), content }
}

#[test]
fn evidence_is_kept_only_for_known_sources() {
    assert_eq!(direct_evidence_source(&tool_result(obj(vec![("source", s("kubernetes"))]))), Some("kubernetes"));
    assert_eq!(direct_evidence_source(&tool_result(obj(vec![("source", s("registry"))]))), None);
    assert_eq!(direct_evidence_source(&tool_result(obj(vec![]))), None);
    assert!(direct_capability_evidence_plan("kubernetes_get", &tool_result(obj(vec![("source", s("shell"))]))).is_none());
}

#[test]
fn artifact_and_observation_kinds_follow_the_content() {
    let analysis = obj(vec![("resource", s("pipeline_run_analysis"))]);
    assert_eq!(direct_artifact_kind(&analysis, "tekton"), "pipeline_run_analysis");
    assert_eq!(direct_artifact_kind(&analysis, "kubernetes"), "kubernetes_tool_result");
    assert_eq!(direct_observation_kind(&analysis, "tekton"), "pipeline_run_analysis");
    assert_eq!(direct_observation_kind(&obj(vec![("action", s("get"))]), "argocd"), "get");
    assert_eq!(direct_observation_kind(&obj(vec![]), "loki"), "loki_read");
}

#[test]
fn observation_subject_prefers_the_analysed_run_then_query_then_name() {
    let analysis = obj(vec![(
        "analysis",
        obj(vec![("pipeline_run", obj(vec![("namespace", s("ci")), ("name", s("build-7"))]))]),
    )]);
    assert_eq!(direct_observation_subject(&analysis, "tekton", "pipeline_run_analysis"), "ci/build-7");
    let query = obj(vec![("query", s("up")), ("name", s("ignored"))]);
    assert_eq!(direct_observation_subject(&query, "prometheus", "query"), "up");
    assert_eq!(direct_observation_subject(&obj(vec![("name", s("web"))]), "kubernetes", "pods"), "web");
    assert_eq!(direct_observation_subject(&obj(vec![("namespace", s("prod"))]), "kubernetes", "pods"), "prod/pods");
    assert_eq!(direct_observation_subject(&obj(vec![]), "loki", "log_summary"), "loki/log_summary");
}

#[test]
fn observation_namespace_and_resource_kind() {
    let content = obj(vec![("output", obj(vec![("kind", s("Pod")), ("metadata", obj(vec![("namespace", s("web"))]))]))]);
    assert_eq!(direct_observation_namespace(&content), Some("web".to_string()));
    assert_eq!(direct_observation_resource_kind(&content, "kubernetes", "get"), Some("Pod".to_string()));
    let list = obj(vec![("output", obj(vec![("kind", s("List"))]))]);
    assert_eq!(direct_observation_resource_kind(&list, "argocd", "get"), Some("Application".to_string()));
    assert_eq!(direct_observation_resource_kind(&obj(vec![]), "prometheus", "inventory"), Some("inventory".to_string()));
    assert_eq!(direct_observation_resource_kind(&obj(vec![]), "prometheus", "range"), Some("query".to_string()));
    assert_eq!(direct_observation_resource_kind(&obj(vec![]), "tekton", "pipeline_run_analysis"), Some("PipelineRun".to_string()));
    assert_eq!(direct_observation_namespace(&obj(vec![])), None);
}

#[test]
fn resource_ref_names_the_capability() {
    let reference = direct_observation_resource_ref("kubernetes_get", "kubernetes", "pods", "web");
    let expected = obj(vec![
        ("source", s("kubernetes")),
        ("kind", s("pods")),
        ("name", s("web")),
        ("metadata", obj(vec![("capability", s("kubernetes_get")), ("direct", JsonValue::Bool(true))])),
    ]);
    assert!(json_equal(&reference, &expected));
}

#[test]
fn result_summary_keeps_only_bounded_fields() {
    let long = "x".repeat(300);
    let result = ToolResult {
        status: "ok".to_string(),
        summary: long.clone(),
        content: obj(vec![
            ("source", s("kubernetes")),
            ("stdout", s("very long output")),
            (
                "output",
                obj(vec![
                    ("kind", s("Pod")),
                    ("metadata", obj(vec![("name", s("web-1")), ("namespace", s("web"))])),
                    ("item_count", JsonValue::Number(JsonNumber::PosInt(1))),
                ]),
            ),
        ]),
    };
    let summary = direct_capability_result_summary(&result);
    assert!(json_equal(member(&summary, "tool_status").unwrap(), &s("ok")));
    assert!(json_equal(member(&summary, "summary").unwrap(), &s(&truncate_audit_text(&long, 256))));
    assert!(json_equal(member(&summary, "source").unwrap(), &s("kubernetes")));
    assert!(member(&summary, "stdout").is_none());
    assert!(member(&summary, "resource").is_none());
    let output = member(&summary, "output").unwrap();
    assert!(json_equal(member(output, "name").unwrap(), &s("web-1")));
    assert!(json_equal(member(output, "item_count").unwrap(), &JsonValue::Number(JsonNumber::PosInt(1))));
    assert!(member(&summary, "response").is_none());
}

#[test]
fn audit_text_is_truncated_at_a_character_boundary() {
    assert_eq!(truncate_audit_text("short", 10), "short");
    assert_eq!(truncate_audit_text("abcdef", 3), "abc...[truncated]");
    assert_eq!(truncate_audit_text("aé", 2), "a...[truncated]");
}

#[test]
fn outcomes_are_answered_and_audited() {
    let result = tool_result(obj(vec![("source", s("kubernetes"))]));
    let (response, audit) = direct_capability_outcome(
        "kubernetes_get",
        1_000,
        CapabilityDisposition::Ran(ToolRun::Completed {
            result,
            artifact_id: Some("art-1".to_string()),
            observation_id: Some("obs-1".to_string()),
        }),
    );
    assert_eq!(response.status, "ok");
    assert!(response.executed);
    assert_eq!(response.artifact_id.as_deref(), Some("art-1"));
    assert_eq!(response.observation_id.as_deref(), Some("obs-1"));
    assert_eq!(audit.unwrap().kind, "direct_capability.executed");

    let (response, audit) = direct_capability_outcome("kubernetes_get", 1_000, CapabilityDisposition::Ran(ToolRun::Cancelled));
    assert_eq!(response.status, "cancelled");
    assert!(response.cancelled);
    assert_eq!(response.error.as_deref(), Some("capability execution cancelled after 1000 ms"));
    assert_eq!(audit.unwrap().kind, "direct_capability.cancelled");

    let (response, audit) = direct_capability_outcome("kubernetes_get", 1_000, CapabilityDisposition::AwaitingApproval);
    assert_eq!(response.status, "approval_required");
    assert!(!response.executed);
    assert!(audit.is_none());

    let (response, audit) = direct_capability_outcome(
        "kubernetes_get",
        1_000,
        CapabilityDisposition::Denied { summary: "denied by policy".to_string() },
    );
    assert_eq!(response.status, "denied");
    assert_eq!(response.error.as_deref(), Some("denied by policy"));
    let audit = audit.unwrap();
    assert_eq!(audit.kind, "direct_capability.denied");
    assert!(audit.error.is_none());

    let error = "e".repeat(600);
    let (response, audit) = direct_capability_outcome(
        "kubernetes_get",
        1_000,
        CapabilityDisposition::Ran(ToolRun::Failed { error: error.clone() }),
    );
    assert_eq!(response.status, "tool_error");
    assert_eq!(response.error.as_deref(), Some(error.as_str()));
    assert_eq!(audit.unwrap().error, Some(truncate_audit_text(&error, 512)));
}

#[test]
fn evidence_plan_describes_artifact_and_observation() {
    let content = obj(vec![
        ("source", s("kubernetes")),
        ("resource", s("pods")),
        ("namespace", s("web")),
        ("name", s("web-1")),
        ("secret", s("not kept")),
    ]);
    let plan = direct_capability_evidence_plan("kubernetes_get", &tool_result(content)).unwrap();
    assert_eq!(plan.source, "kubernetes");
    assert_eq!(plan.artifact_kind, "kubernetes_tool_result");
    assert_eq!(plan.label, "read one pod");
    assert_eq!(plan.observation_kind, "pods");
    assert_eq!(plan.subject, "web-1");
    assert_eq!(plan.namespace.as_deref(), Some("web"));
    assert_eq!(plan.resource_kind.as_deref(), Some("pods"));
    assert!(member(&plan.data, "secret").is_none());
    assert!(json_equal(member(&plan.data, "name").unwrap(), &s("web-1")));
}
