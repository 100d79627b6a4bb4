//! Named preflight checks and executor settings shared by the delivery
//! preflights.
use vstd::prelude::*;
use crate::json::{entries_view, items_view, json_str, lemma_array_view, lemma_object_view, obj_insert, path_view, Json, JsonValue};

verus! {

/// One preflight check: a stable code, whether it passed, and why.
pub struct ExecutionCheck {
    pub code: String,
    pub passed: bool,
    pub summary: String,
}

pub open spec fn check_view(c: ExecutionCheck) -> (Seq<char>, bool, Seq<char>) {
    (c.code@, c.passed, c.summary@)
}

pub open spec fn checks_view(cs: Seq<ExecutionCheck>) -> Seq<(Seq<char>, bool, Seq<char>)> {
    cs.map_values(|c: ExecutionCheck| check_view(c))
}

pub fn execution_check(code: &str, passed: bool, summary: String) -> (r: ExecutionCheck)
    ensures
        check_view(r) == (code@, passed, summary@),
{
    ExecutionCheck { code: code.to_owned(), passed, summary }
}

/// A check as a document: its code, whether it passed, and why.
pub open spec fn spec_check_json(c: ExecutionCheck) -> Json {
    Json::Object(seq![("code"@, Json::Str(c.code@)), ("passed"@, Json::Bool(c.passed)), ("summary"@, Json::Str(c.summary@))])
}

pub open spec fn spec_checks_json(cs: Seq<ExecutionCheck>) -> Json {
    Json::Array(Seq::new(cs.len(), |i: int| spec_check_json(cs[i])))
}

/// The checks as a document, in order.
pub fn checks_json(checks: &Vec<ExecutionCheck>) -> (r: JsonValue)
    ensures
        r@ == spec_checks_json(checks@),
{
    let mut items: Vec<JsonValue> = Vec::new();
    let mut i: usize = 0;
    while i < checks.len()
        invariant
            i <= checks@.len(),
            items@.len() == i,
            forall|k: int| 0 <= k < i ==> #[trigger] items@[k]@ == spec_check_json(checks@[k]),
        decreases checks@.len() - i,
    {
        let c = &checks[i];
        let mut es: Vec<(String, JsonValue)> = Vec::new();
        obj_insert(&mut es, "code", json_str(c.code.as_str()));
        obj_insert(&mut es, "passed", JsonValue::Bool(c.passed));
        obj_insert(&mut es, "summary", json_str(c.summary.as_str()));
        proof {
            lemma_object_view(es);
            assert(entries_view(es@) =~= spec_check_json(checks@[i as int])->Object_0);
        }
        items.push(JsonValue::Object(es));
        i = i + 1;
    }
    proof {
        lemma_array_view(items);
        assert(items_view(items@) =~= spec_checks_json(checks@)->Array_0);
    }
    JsonValue::Array(items)
}

/// The Argo executor poll interval: a positive configured value, else 5 s.
pub open spec fn spec_argo_executor_poll_seconds(config: Json) -> int {
    match config.pointer(seq!["argo_executor"@, "poll_seconds"@]) {
        Some(v) => match v.as_u64() {
            Some(n) => if n > 0 {
                n
            } else {
                5
            },
            None => 5,
        },
        None => 5,
    }
}

pub fn argo_executor_poll_seconds(config: &JsonValue) -> (r: u64)
    ensures
        r as int == spec_argo_executor_poll_seconds(config@),
{
    proof {
        let p: Seq<&str> = seq!["argo_executor", "poll_seconds"];
        assert(path_view(p) =~= seq!["argo_executor"@, "poll_seconds"@]);
    }
    match config.pointer(&["argo_executor", "poll_seconds"]) {
        Some(v) => match v.as_u64() {
            Some(n) => if n > 0 {
                n
            } else {
                5
            },
            None => 5,
        },
        None => 5,
    }
}

} // verus!
