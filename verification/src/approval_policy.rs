//! Approval gates: which kind a gate is and which gates are decided through
//! their own lifecycle action.
use vstd::prelude::*;
use crate::json::{get_str, opt_json_view, str_member, Json, JsonValue};
use crate::text::{is_blank, spec_is_blank, spec_trim, str_eq, trim_str};

verus! {

/// Production rollback approvals are decided by their own lifecycle action.
pub fn approval_gate_uses_dedicated_lifecycle_action(gate_kind: &str) -> (r: bool)
    ensures
        r == (gate_kind@ == "production_rollback"@),
{
    str_eq(gate_kind, "production_rollback")
}

/// The kind of an approval: its `kind` member, or the value itself when it is a
/// string; trimmed, and absent when blank.
pub open spec fn spec_approval_gate_kind(gate: Json) -> Option<Seq<char>> {
    let raw = match str_member(gate, "kind"@) {
        Some(k) => Some(k),
        None => gate.as_str(),
    };
    match raw {
        Some(k) => if spec_is_blank(k) {
            None
        } else {
            Some(spec_trim(k))
        },
        None => None,
    }
}

pub fn approval_gate_kind(gate: &JsonValue) -> (r: Option<String>)
    ensures
        match r {
            Some(k) => spec_approval_gate_kind(gate@) == Some(k@),
            None => spec_approval_gate_kind(gate@) is None,
        },
{
    let raw = match get_str(gate, "kind") {
        Some(k) => Some(k),
        None => gate.as_str(),
    };
    match raw {
        Some(k) => if is_blank(k) {
            None
        } else {
            Some(trim_str(k).to_owned())
        },
        None => None,
    }
}

} // verus!
