//! Test evidence read from an agent's event stream: every tool call that
//! finished while the most recently started tool was `run_shell`.
use vstd::prelude::*;
use crate::json::{items_view, lemma_object_view, entries_view, obj_insert, Json, JsonValue};

verus! {

/// The kinds of agent event that test evidence depends on.
#[derive(Clone, Copy, Debug, PartialEq, Eq, Structural)]
pub enum AgentEventKind {
    ToolStarted,
    ToolFinished,
    Other,
}

/// One event of an agent run.
pub struct AgentEvent {
    pub event_id: String,
    pub kind: AgentEventKind,
    pub payload: JsonValue,
}

pub open spec fn opt_or_null(v: Option<Json>) -> Json {
    match v {
        Some(j) => j,
        None => Json::Null,
    }
}

/// The action of the most recently started tool among `events`, if it names
/// one as text.
pub open spec fn spec_active_action(events: Seq<AgentEvent>) -> Option<Seq<char>>
    decreases events.len(),
{
    if events.len() == 0 {
        None
    } else if events.last().kind == AgentEventKind::ToolStarted {
        match events.last().payload@.get("action"@) {
            Some(Json::Str(a)) => Some(a),
            _ => None,
        }
    } else {
        spec_active_action(events.drop_last())
    }
}

/// The evidence entry of a finished tool call.
pub open spec fn spec_shell_entry(event: AgentEvent) -> Json {
    Json::Object(
        seq![
            ("event_id"@, Json::Str(event.event_id@)),
            ("status"@, opt_or_null(event.payload@.get("status"@))),
            ("summary"@, opt_or_null(event.payload@.get("summary"@))),
        ],
    )
}

/// The shell test evidence of an event stream, in stream order.
pub open spec fn spec_shell_test_evidence(events: Seq<AgentEvent>) -> Seq<Json>
    decreases events.len(),
{
    if events.len() == 0 {
        Seq::empty()
    } else {
        let before = events.drop_last();
        let e = events.last();
        spec_shell_test_evidence(before) + if e.kind == AgentEventKind::ToolFinished && spec_active_action(before)
            == Some("run_shell"@) {
            seq![spec_shell_entry(e)]
        } else {
            Seq::empty()
        }
    }
}

fn member_or_null(payload: &JsonValue, key: &str) -> (r: JsonValue)
    ensures
        r@ == opt_or_null(payload@.get(key@)),
{
    match payload.get(key) {
        Some(v) => v.duplicate(),
        None => JsonValue::Null,
    }
}

fn shell_entry(event: &AgentEvent) -> (r: JsonValue)
    ensures
        r@ == spec_shell_entry(*event),
{
    let mut entries: Vec<(String, JsonValue)> = Vec::new();
    obj_insert(&mut entries, "event_id", JsonValue::Str(event.event_id.clone()));
    obj_insert(&mut entries, "status", member_or_null(&event.payload, "status"));
    obj_insert(&mut entries, "summary", member_or_null(&event.payload, "summary"));
    proof {
        lemma_object_view(entries);
        assert(entries_view(entries@) =~= spec_shell_entry(*event)->Object_0);
    }
    JsonValue::Object(entries)
}

/// Collect the result of every tool call that finished while `run_shell`
/// was the most recently started tool.
pub fn shell_test_evidence(events: &Vec<AgentEvent>) -> (r: Vec<JsonValue>)
    ensures
        items_view(r@) == spec_shell_test_evidence(events@),
{
    let mut active: Option<String> = None;
    let mut evidence: Vec<JsonValue> = Vec::new();
    let mut i: usize = 0;
    while i < events.len()
        invariant
            i <= events@.len(),
            match active {
                Some(a) => spec_active_action(events@.subrange(0, i as int)) == Some(a@),
                None => spec_active_action(events@.subrange(0, i as int)) is None,
            },
            items_view(evidence@) == spec_shell_test_evidence(events@.subrange(0, i as int)),
        decreases events@.len() - i,
    {
        let event = &events[i];
        let ghost prefix = events@.subrange(0, i + 1);
        proof {
            assert(prefix.drop_last() =~= events@.subrange(0, i as int));
            assert(prefix.last() == *event);
        }
        if event.kind == AgentEventKind::ToolStarted {
            active = match event.payload.get("action") {
                Some(JsonValue::Str(a)) => Some(a.clone()),
                _ => None,
            };
            proof {
                assert(items_view(evidence@) =~= spec_shell_test_evidence(prefix));
            }
        } else {
            let running_shell = match &active {
                Some(a) => crate::text::str_eq(a.as_str(), "run_shell"),
                None => false,
            };
            if event.kind == AgentEventKind::ToolFinished && running_shell {
                let ghost before = evidence@;
                evidence.push(shell_entry(event));
                proof {
                    assert(items_view(evidence@) =~= items_view(before) + seq![spec_shell_entry(*event)]);
                }
            } else {
                proof {
                    assert(items_view(evidence@) =~= spec_shell_test_evidence(prefix));
                }
            }
        }
        i = i + 1;
    }
    proof {
        assert(events@.subrange(0, events@.len() as int) =~= events@);
    }
    evidence
}

} // verus!
