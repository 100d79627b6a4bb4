//! Automatic approvals: the controller may approve a WorkPlan or a ChangeSet
//! only on the exact, sealed agent evidence, never on a proposed record.
use vstd::prelude::*;
use crate::error::{ApiError, ErrorKind};
use crate::json::{get_i64, get_str, i64_member, json_equal, str_member, Json, JsonValue};
use crate::text::str_eq;

verus! {

broadcast use vstd::std_specs::vec::group_vec_axioms;

/// An effective stage outcome, with the canonical hash of its document as
/// computed now.
pub struct StageOutcome {
    pub stage_key: String,
    pub stage_execution_id: String,
    pub status: String,
    pub outcome: JsonValue,
    pub content_hash: String,
    pub computed_hash: String,
}

/// The current WorkPlan of the work item.
pub struct ApprovalPlan {
    pub id: String,
    pub run_id: Option<String>,
    pub revision: i64,
    pub work_plan_json: JsonValue,
}

/// The current ChangeSet of the WorkPlan, with the canonical hash of its
/// material as computed now.
pub struct ApprovalChangeSet {
    pub id: String,
    pub material_hash: String,
    pub computed_hash: String,
    pub material: JsonValue,
}

pub open spec fn evidence_refused() -> Seq<char> {
    "automatic approval requires current successful evidence without unresolved contradictions"@
}

/// Sealed, successful evidence without contradictions, unchanged since it
/// was hashed.
pub open spec fn spec_successful(o: StageOutcome) -> bool {
    &&& o.status@ == "succeeded"@
    &&& str_member(o.outcome@, "status"@) == Some("succeeded"@)
    &&& o.outcome@.get("contradictions"@) == Some(Json::Array(Seq::empty()))
    &&& o.computed_hash@ == o.content_hash@
}

pub fn successful(o: &StageOutcome) -> (r: Result<(), ApiError>)
    ensures
        match r {
            Ok(()) => spec_successful(*o),
            Err(e) => !spec_successful(*o) && e.kind == ErrorKind::Conflict && e.message@ == evidence_refused(),
        },
{
    let status_ok = match get_str(&o.outcome, "status") {
        Some(s) => str_eq(s, "succeeded"),
        None => false,
    };
    let no_contradictions = match o.outcome.get("contradictions") {
        Some(JsonValue::Array(items)) => {
            proof {
                crate::json::lemma_array_view(*items);
            }
            let empty = items.len() == 0;
            proof {
                if empty {
                    assert(crate::json::items_view(items@) =~= Seq::<Json>::empty());
                } else {
                    assert(crate::json::items_view(items@).len() > 0);
                }
            }
            empty
        },
        _ => false,
    };
    if !str_eq(o.status.as_str(), "succeeded") || !status_ok || !no_contradictions || !str_eq(
        o.computed_hash.as_str(),
        o.content_hash.as_str(),
    ) {
        return Err(ApiError::conflict("automatic approval requires current successful evidence without unresolved contradictions"));
    }
    Ok(())
}

/// The first outcome of the stage.
pub open spec fn first_stage_outcome(os: Seq<StageOutcome>, stage: Seq<char>) -> Option<int>
    decreases os.len(),
{
    if os.len() == 0 {
        None
    } else if os[0].stage_key@ == stage {
        Some(0)
    } else {
        match first_stage_outcome(os.drop_first(), stage) {
            Some(i) => Some(i + 1),
            None => None,
        }
    }
}

pub fn find_stage_outcome(outcomes: &Vec<StageOutcome>, stage: &str) -> (r: Option<usize>)
    ensures
        match r {
            Some(i) => first_stage_outcome(outcomes@, stage@) == Some(i as int) && i < outcomes@.len(),
            None => first_stage_outcome(outcomes@, stage@) is None,
        },
{
    let n = outcomes.len();
    let mut i: usize = 0;
    proof {
        assert(outcomes@.subrange(0, n as int) =~= outcomes@);
    }
    while i < n
        invariant
            n == outcomes@.len(),
            i <= n,
            first_stage_outcome(outcomes@, stage@) == match first_stage_outcome(outcomes@.subrange(i as int, n as int), stage@) {
                Some(k) => Some(k + i),
                None => None::<int>,
            },
        decreases n - i,
    {
        let ghost rest = outcomes@.subrange(i as int, n as int);
        proof {
            assert(rest[0] == outcomes@[i as int]);
            assert(rest.drop_first() =~= outcomes@.subrange(i + 1, n as int));
        }
        if str_eq(outcomes[i].stage_key.as_str(), stage) {
            return Some(i);
        }
        i = i + 1;
    }
    None
}

/// The Planner outcome a WorkPlan approval rests on, or the refusal.
pub open spec fn spec_planner_outcome(os: Seq<StageOutcome>) -> Result<int, Seq<char>> {
    match first_stage_outcome(os, "plan"@) {
        None => Err("automatic plan approval requires sealed Planner evidence"@),
        Some(i) => if spec_successful(os[i]) {
            Ok(i)
        } else {
            Err(evidence_refused())
        },
    }
}

/// Find the sealed, successful Planner outcome.
pub fn planner_outcome(outcomes: &Vec<StageOutcome>) -> (r: Result<usize, ApiError>)
    ensures
        match r {
            Ok(i) => spec_planner_outcome(outcomes@) == Ok::<int, Seq<char>>(i as int) && i < outcomes@.len(),
            Err(e) => e.kind == ErrorKind::Conflict && spec_planner_outcome(outcomes@) == Err::<int, Seq<char>>(e.message@),
        },
{
    let i = match find_stage_outcome(outcomes, "plan") {
        Some(i) => i,
        None => return Err(ApiError::conflict("automatic plan approval requires sealed Planner evidence")),
    };
    match successful(&outcomes[i]) {
        Ok(()) => Ok(i),
        Err(e) => Err(e),
    }
}

/// The outcome lists the WorkPlan at its revision among its outputs.
pub open spec fn lists_plan(outputs: Seq<Json>, plan: ApprovalPlan) -> bool {
    exists|k: int|
        0 <= k < outputs.len() && str_member(#[trigger] outputs[k], "kind"@) == Some("work_plan"@) && str_member(
            outputs[k],
            "id"@,
        ) == Some(plan.id@) && i64_member(outputs[k], "revision"@) == Some(plan.revision as int)
}

/// The Planner submitted exactly the WorkPlan document.
pub open spec fn claims_plan(claims: Seq<Json>, plan: ApprovalPlan) -> bool {
    exists|k: int|
        0 <= k < claims.len() && str_member(#[trigger] claims[k], "kind"@) == Some("planner_submission"@)
            && claims[k].get("document"@) == Some(plan.work_plan_json@)
}

pub open spec fn array_at(v: Json, key: Seq<char>) -> Option<Seq<Json>> {
    match v.get(key) {
        Some(Json::Array(items)) => Some(items),
        _ => None,
    }
}

/// The WorkPlan being approved is the one the Planner's run sealed.
pub open spec fn plan_matches_planner(plan: ApprovalPlan, resource: Seq<char>, o: StageOutcome, execution_run_id: Option<Seq<char>>) -> bool {
    &&& plan.id@ == resource
    &&& plan.run_id is Some
    &&& crate::text::opt_text(plan.run_id) == execution_run_id
    &&& array_at(o.outcome@, "outputs"@) matches Some(outputs) && lists_plan(outputs, plan)
    &&& array_at(o.outcome@, "agent_claims"@) matches Some(claims) && claims_plan(claims, plan)
}

fn any_plan_output(outputs: &Vec<JsonValue>, plan: &ApprovalPlan) -> (r: bool)
    ensures
        r == lists_plan(crate::json::items_view(outputs@), *plan),
{
    let ghost v = crate::json::items_view(outputs@);
    let mut i: usize = 0;
    while i < outputs.len()
        invariant
            v == crate::json::items_view(outputs@),
            i <= outputs@.len(),
            forall|k: int| 0 <= k < i ==> !(str_member(#[trigger] v[k], "kind"@) == Some("work_plan"@) && str_member(v[k], "id"@)
                == Some(plan.id@) && i64_member(v[k], "revision"@) == Some(plan.revision as int)),
        decreases outputs@.len() - i,
    {
        let o = &outputs[i];
        proof {
            assert(v[i as int] == o@);
        }
        let kind_ok = match get_str(o, "kind") {
            Some(k) => str_eq(k, "work_plan"),
            None => false,
        };
        let id_ok = match get_str(o, "id") {
            Some(x) => str_eq(x, plan.id.as_str()),
            None => false,
        };
        let revision_ok = match get_i64(o, "revision") {
            Some(r) => r == plan.revision,
            None => false,
        };
        if kind_ok && id_ok && revision_ok {
            return true;
        }
        i = i + 1;
    }
    false
}

fn any_plan_claim(claims: &Vec<JsonValue>, plan: &ApprovalPlan) -> (r: bool)
    ensures
        r == claims_plan(crate::json::items_view(claims@), *plan),
{
    let ghost v = crate::json::items_view(claims@);
    let mut i: usize = 0;
    while i < claims.len()
        invariant
            v == crate::json::items_view(claims@),
            i <= claims@.len(),
            forall|k: int| 0 <= k < i ==> !(str_member(#[trigger] v[k], "kind"@) == Some("planner_submission"@) && v[k].get(
                "document"@,
            ) == Some(plan.work_plan_json@)),
        decreases claims@.len() - i,
    {
        let c = &claims[i];
        proof {
            assert(v[i as int] == c@);
        }
        let kind_ok = match get_str(c, "kind") {
            Some(k) => str_eq(k, "planner_submission"),
            None => false,
        };
        let document_ok = match c.get("document") {
            Some(d) => json_equal(d, &plan.work_plan_json),
            None => false,
        };
        if kind_ok && document_ok {
            return true;
        }
        i = i + 1;
    }
    false
}

fn array_member<'a>(v: &'a JsonValue, key: &str) -> (r: Option<&'a Vec<JsonValue>>)
    ensures
        match r {
            Some(items) => array_at(v@, key@) == Some(crate::json::items_view(items@)),
            None => array_at(v@, key@) is None,
        },
{
    match v.get(key) {
        Some(JsonValue::Array(items)) => {
            proof {
                crate::json::lemma_array_view(*items);
            }
            Some(items)
        },
        _ => None,
    }
}

/// Check that the WorkPlan approved as `resource` is the revision the
/// Planner outcome sealed; `execution_run_id` is the run of the Planner's
/// stage execution.
pub fn check_plan_approval(plan: &ApprovalPlan, resource: &str, outcome: &StageOutcome, execution_run_id: Option<&str>) -> (r: Result<(), ApiError>)
    ensures
        match r {
            Ok(()) => plan_matches_planner(*plan, resource@, *outcome, crate::text::opt_str_view(execution_run_id)),
            Err(e) => !plan_matches_planner(*plan, resource@, *outcome, crate::text::opt_str_view(execution_run_id))
                && e.kind == ErrorKind::Conflict && e.message@ == "the proposed WorkPlan does not match the sealed Planner revision"@,
        },
{
    let run_ok = match (&plan.run_id, execution_run_id) {
        (Some(a), Some(b)) => str_eq(a.as_str(), b),
        _ => false,
    };
    let outputs_ok = match array_member(&outcome.outcome, "outputs") {
        Some(outputs) => any_plan_output(outputs, plan),
        None => false,
    };
    let claims_ok = match array_member(&outcome.outcome, "agent_claims") {
        Some(claims) => any_plan_claim(claims, plan),
        None => false,
    };
    if !str_eq(plan.id.as_str(), resource) || !run_ok || !outputs_ok || !claims_ok {
        return Err(ApiError::conflict("the proposed WorkPlan does not match the sealed Planner revision"));
    }
    Ok(())
}

/// The stages whose sealed evidence a ChangeSet approval needs, in order.
pub open spec fn approval_stages() -> Seq<Seq<char>> {
    seq!["discover"@, "plan"@, "implement"@, "test"@, "verify"@]
}

/// The refusal owed for the evidence of stages `k..` of a ChangeSet
/// approval, if any.
pub open spec fn stages_refusal(os: Seq<StageOutcome>, material: Json, k: nat) -> Option<Seq<char>>
    decreases 5 - k,
{
    if k >= 5 {
        None
    } else {
        let stage = approval_stages()[k as int];
        match first_stage_outcome(os, stage) {
            None => Some("automatic approval is missing "@ + stage + " evidence"@),
            Some(i) => if !spec_successful(os[i]) {
                Some(evidence_refused())
            } else if stage == "verify"@ && material.get("verification_stage_execution_id"@) != Some(
                Json::Str(os[i].stage_execution_id@),
            ) {
                Some("ChangeSet verifier identity changed"@)
            } else {
                stages_refusal(os, material, k + 1)
            },
        }
    }
}

/// The refusal owed for approving `change` as `resource`, if any;
/// `binding_current` states whether the stage outcomes the material binds
/// are the current ones.
pub open spec fn spec_change_set_refusal(change: ApprovalChangeSet, resource: Seq<char>, binding_current: bool, os: Seq<StageOutcome>) -> Option<Seq<char>> {
    if array_at(change.material@, "effective_outcomes"@) is None {
        Some("ChangeSet has no bound stage outcomes"@)
    } else if change.id@ != resource || change.computed_hash@ != change.material_hash@ || !binding_current {
        Some("automatic approval requires the exact current verified ChangeSet"@)
    } else {
        stages_refusal(os, change.material@, 0)
    }
}

fn stage_name(k: usize) -> (r: &'static str)
    requires
        k < 5,
    ensures
        r@ == approval_stages()[k as int],
{
    if k == 0 {
        "discover"
    } else if k == 1 {
        "plan"
    } else if k == 2 {
        "implement"
    } else if k == 3 {
        "test"
    } else {
        "verify"
    }
}

/// Check that `change` may be approved automatically as `resource`: its
/// material is unchanged and bound to the current outcomes, and every stage
/// has sealed, successful evidence, the verifier's being the one recorded.
pub fn check_change_set_approval(change: &ApprovalChangeSet, resource: &str, binding_current: bool, outcomes: &Vec<StageOutcome>) -> (r: Result<(), ApiError>)
    ensures
        match r {
            Ok(()) => spec_change_set_refusal(*change, resource@, binding_current, outcomes@) is None,
            Err(e) => e.kind == ErrorKind::Conflict && spec_change_set_refusal(*change, resource@, binding_current, outcomes@)
                == Some(e.message@),
        },
{
    if array_member(&change.material, "effective_outcomes").is_none() {
        return Err(ApiError::conflict("ChangeSet has no bound stage outcomes"));
    }
    if !str_eq(change.id.as_str(), resource) || !str_eq(change.computed_hash.as_str(), change.material_hash.as_str())
        || !binding_current {
        return Err(ApiError::conflict("automatic approval requires the exact current verified ChangeSet"));
    }
    let mut k: usize = 0;
    while k < 5
        invariant
            k <= 5,
            spec_change_set_refusal(*change, resource@, binding_current, outcomes@) == stages_refusal(outcomes@, change.material@, 0),
            stages_refusal(outcomes@, change.material@, 0) == stages_refusal(outcomes@, change.material@, k as nat),
        decreases 5 - k,
    {
        let stage = stage_name(k);
        let i = match find_stage_outcome(outcomes, stage) {
            Some(i) => i,
            None => {
                let message = String::from_str("automatic approval is missing ").concat(stage).concat(" evidence");
                return Err(ApiError::with_message(ErrorKind::Conflict, message));
            },
        };
        match successful(&outcomes[i]) {
            Ok(()) => {},
            Err(e) => return Err(e),
        }
        if k == 4 {
            let same = match change.material.get("verification_stage_execution_id") {
                Some(JsonValue::Str(id)) => str_eq(id.as_str(), outcomes[i].stage_execution_id.as_str()),
                _ => false,
            };
            if !same {
                return Err(ApiError::conflict("ChangeSet verifier identity changed"));
            }
        }
        proof {
            reveal_strlit("verify");
            reveal_strlit("discover");
            reveal_strlit("plan");
            reveal_strlit("implement");
            reveal_strlit("test");
            assert(k < 4 ==> stage@ != "verify"@) by {
                if k == 0 { assert(stage@[0] != "verify"@[0]); }
                else if k == 1 { assert(stage@[0] != "verify"@[0]); }
                else if k == 2 { assert(stage@[0] != "verify"@[0]); }
                else if k == 3 { assert(stage@[0] != "verify"@[0]); }
            }
        }
        k = k + 1;
    }
    Ok(())
}

} // verus!
