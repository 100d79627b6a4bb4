use pharness_api::event_evidence::{shell_test_evidence, AgentEvent, AgentEventKind};
use pharness_api::json::{json_equal, JsonValue};

fn s(text: &str) -> JsonValue {
    JsonValue::Str(text.to_string())
}

fn obj(members: Vec<(&str, JsonValue)>) -> JsonValue {
    JsonValue::Object(members.into_iter().map(|(k, v)| (k.to_string(), v)).collect())
}

fn event(id: &str, kind: AgentEventKind, payload: JsonValue) -> AgentEvent {
    AgentEvent { event_id: id.to_string(), kind, payload }
}

#[test]
fn finished_shell_calls_become_evidence() {
    let events = vec![
        event("e1", AgentEventKind::ToolStarted, obj(vec![("action", s("run_shell"))])),
        event("e2", AgentEventKind::ToolFinished, obj(vec![("status", s("passed")), ("summary", s("12 tests"))])),
        event("e3", AgentEventKind::ToolStarted, obj(vec![("action", s("read_file"))])),
        event("e4", AgentEventKind::ToolFinished, obj(vec![("status", s("passed"))])),
        event("e5", AgentEventKind::ToolStarted, obj(vec![("action", s("run_shell"))])),
        event("e6", AgentEventKind::Other, obj(vec![])),
        event("e7", AgentEventKind::ToolFinished, obj(vec![("status", s("failed"))])),
    ];
    let evidence = shell_test_evidence(&events);
    assert_eq!(evidence.len(), 2);
    let first = obj(vec![("event_id", s("e2")), ("status", s("passed")), ("summary", s("12 tests"))]);
    let second = obj(vec![("event_id", s("e7")), ("status", s("failed")), ("summary", JsonValue::Null)]);
    assert!(json_equal(&evidence[0], &first));
    assert!(json_equal(&evidence[1], &second));
}

#[test]
fn finish_without_a_started_shell_is_not_evidence() {
    let events = vec![
        event("e1", AgentEventKind::ToolFinished, obj(vec![("status", s("passed"))])),
        event("e2", AgentEventKind::ToolStarted, obj(vec![("action", JsonValue::Bool(true))])),
        event("e3", AgentEventKind::ToolFinished, obj(vec![("status", s("passed"))])),
    ];
    assert!(shell_test_evidence(&events).is_empty());
}
