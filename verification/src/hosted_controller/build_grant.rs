//! The permission a hosted build runs under: one grant per build operation,
//! scoped to exactly its pipeline intent and never renewed, and the
//! execution identity a pipeline intent keeps once its build was dispatched.
use vstd::prelude::*;
use crate::error::{ApiError, ErrorKind};
use crate::json::{
    entries_view, items_view, json_equal, lemma_array_view, lemma_object_view, obj_insert, path_view, Json,
    JsonValue,
};
use crate::text::{decimal_i64, opt_text, spec_decimal_int, str_eq, strip_all_prefixes, trim_start_matches};
use super::build_stage::{at, at_exec, or_null};

verus! {

/// How long after its operation was created a build grant may last at most.
pub const BUILD_GRANT_LIFETIME_MILLIS: i64 = 1800000;

/// The grant of a build operation: `pgrant_build_` and the operation's id
/// without its `workflowop_` prefixes.
pub fn build_grant_id(operation_id: &str) -> (r: String)
    ensures
        r@ == "pgrant_build_"@ + strip_all_prefixes(operation_id@, "workflowop_"@),
{
    String::from_str("pgrant_build_").concat(trim_start_matches(operation_id, "workflowop_"))
}

pub open spec fn spec_build_grant_expiry(created_at: int, deadline: int) -> int {
    let ceiling = if created_at + BUILD_GRANT_LIFETIME_MILLIS > i64::MAX {
        i64::MAX as int
    } else {
        created_at + BUILD_GRANT_LIFETIME_MILLIS
    };
    if ceiling < deadline {
        ceiling
    } else {
        deadline
    }
}

/// A build grant expires half an hour after its operation was created
/// (saturating), or at the operation's deadline if that comes first; retries
/// keep the original time, so the grant is never renewed.
pub fn build_grant_expiry(created_at: i64, deadline: i64) -> (r: i64)
    ensures
        r as int == spec_build_grant_expiry(created_at as int, deadline as int),
{
    let ceiling = if created_at > 9223372036854775807i64 - BUILD_GRANT_LIFETIME_MILLIS {
        9223372036854775807i64
    } else {
        created_at + BUILD_GRANT_LIFETIME_MILLIS
    };
    if ceiling < deadline {
        ceiling
    } else {
        deadline
    }
}

fn member_or_null(v: &JsonValue, key: &str) -> (r: JsonValue)
    ensures
        r@ == or_null(v@.get(key@)),
{
    match v.get(key) {
        Some(m) => m.duplicate(),
        None => JsonValue::Null,
    }
}

pub open spec fn one_text(t: Seq<char>) -> Json {
    Json::Array(seq![Json::Str(t)])
}

/// The scope of a build grant: one Tekton pipeline trigger in the Tekton
/// namespace, for exactly this WorkPlan, ChangeSet and pipeline intent, not
/// production impacting. Members are in key order.
pub open spec fn spec_build_grant_scope(environment: Json, work_plan_id: Seq<char>, change_set_id: Seq<char>, pipeline_intent_id: Seq<char>) -> Json {
    Json::Object(
        seq![
            ("actions"@, one_text("tekton_trigger_pipeline"@)),
            ("capability_kinds"@, one_text("tekton_start_run"@)),
            ("change_set_ids"@, one_text(change_set_id)),
            ("environment"@, environment),
            ("max_risk"@, Json::Str("high"@)),
            ("namespaces"@, one_text("tekton-pipelines"@)),
            ("pipeline_intent_ids"@, one_text(pipeline_intent_id)),
            ("production_impacting"@, Json::Bool(false)),
            ("work_plan_ids"@, one_text(work_plan_id)),
        ],
    )
}

fn text_list(t: &str) -> (r: JsonValue)
    ensures
        r@ == one_text(t@),
{
    let items: Vec<JsonValue> = vec![JsonValue::Str(String::from_str(t))];
    proof {
        lemma_array_view(items);
        assert(items_view(items@) =~= seq![Json::Str(t@)]);
    }
    JsonValue::Array(items)
}

pub fn build_grant_scope(environment: &JsonValue, work_plan_id: &str, change_set_id: &str, pipeline_intent_id: &str) -> (r: JsonValue)
    ensures
        r@ == spec_build_grant_scope(environment@, work_plan_id@, change_set_id@, pipeline_intent_id@),
{
    let mut es: Vec<(String, JsonValue)> = Vec::new();
    obj_insert(&mut es, "actions", text_list("tekton_trigger_pipeline"));
    obj_insert(&mut es, "capability_kinds", text_list("tekton_start_run"));
    obj_insert(&mut es, "change_set_ids", text_list(change_set_id));
    obj_insert(&mut es, "environment", environment.duplicate());
    obj_insert(&mut es, "max_risk", JsonValue::Str(String::from_str("high")));
    obj_insert(&mut es, "namespaces", text_list("tekton-pipelines"));
    obj_insert(&mut es, "pipeline_intent_ids", text_list(pipeline_intent_id));
    obj_insert(&mut es, "production_impacting", JsonValue::Bool(false));
    obj_insert(&mut es, "work_plan_ids", text_list(work_plan_id));
    proof {
        lemma_object_view(es);
        assert(entries_view(es@) =~= spec_build_grant_scope(environment@, work_plan_id@, change_set_id@, pipeline_intent_id@)->Object_0);
    }
    JsonValue::Object(es)
}

pub open spec fn spec_build_grant_policy() -> Json {
    Json::Object(seq![("policy_mode"@, Json::Str("supervised_autonomy"@))])
}

/// The policy a build grant carries: supervised autonomy.
pub fn build_grant_policy() -> (r: JsonValue)
    ensures
        r@ == spec_build_grant_policy(),
{
    let mut es: Vec<(String, JsonValue)> = Vec::new();
    obj_insert(&mut es, "policy_mode", JsonValue::Str(String::from_str("supervised_autonomy")));
    proof {
        lemma_object_view(es);
        assert(entries_view(es@) =~= spec_build_grant_policy()->Object_0);
    }
    JsonValue::Object(es)
}

/// Why a build grant is issued.
pub fn build_grant_reason(operation_id: &str) -> (r: String)
    ensures
        r@ == "Saved hosted workflow permits the non-deploying build operation "@ + operation_id@,
{
    String::from_str("Saved hosted workflow permits the non-deploying build operation ").concat(operation_id)
}

/// A permission grant as stored.
pub struct StoredGrant {
    pub status: String,
    pub subject: String,
    pub scope: JsonValue,
    pub policy: JsonValue,
    pub expires_at: Option<String>,
}

/// Whether the grant found under a build grant's id is still exactly the
/// original: active, for the controller's subject, with the same scope,
/// policy and expiry, and not expired (`unexpired`, as the grant rules
/// judge it at the current time).
pub open spec fn spec_original_build_grant(g: StoredGrant, subject: Seq<char>, scope: Json, expiry: int, unexpired: bool) -> bool {
    &&& g.status@ == "active"@
    &&& g.subject@ == subject
    &&& g.scope@ == scope
    &&& g.policy@ == spec_build_grant_policy()
    &&& opt_text(g.expires_at) == Some(spec_decimal_int(expiry))
    &&& unexpired
}

/// What the build grant step leads to.
#[derive(Clone, Copy, Debug, PartialEq, Eq, Structural)]
pub enum BuildGrantStep {
    /// The original grant stands and is used as it is.
    Reuse,
    /// No grant exists yet and the window is open: issue it.
    Issue,
}

/// Decide on the build grant of an operation at `now`: an existing grant must
/// be the unchanged original, and a missing one may be issued only before
/// its expiry. Nothing ever replaces or renews a grant.
pub fn check_build_grant(existing: Option<&StoredGrant>, subject: &str, scope: &JsonValue, expiry: i64, unexpired: bool, now: i64) -> (r: Result<BuildGrantStep, ApiError>)
    ensures
        match existing {
            Some(g) => if spec_original_build_grant(*g, subject@, scope@, expiry as int, unexpired) {
                r == Ok::<BuildGrantStep, ApiError>(BuildGrantStep::Reuse)
            } else {
                r matches Err(e) && e.kind == ErrorKind::Conflict && e.message@
                    == "original hosted build grant expired, was revoked, or changed; no replacement authority was issued"@
            },
            None => if now < expiry {
                r == Ok::<BuildGrantStep, ApiError>(BuildGrantStep::Issue)
            } else {
                r matches Err(e) && e.kind == ErrorKind::Conflict && e.message@
                    == "the original hosted build authorization window expired"@
            },
        },
{
    match existing {
        Some(g) => {
            let policy = build_grant_policy();
            let expiry_text = decimal_i64(expiry);
            let same_expiry = match &g.expires_at {
                Some(t) => str_eq(t.as_str(), expiry_text.as_str()),
                None => false,
            };
            if !str_eq(g.status.as_str(), "active") || !str_eq(g.subject.as_str(), subject) || !json_equal(&g.scope, scope)
                || !json_equal(&g.policy, &policy) || !same_expiry || !unexpired {
                return Err(ApiError::conflict("original hosted build grant expired, was revoked, or changed; no replacement authority was issued"));
            }
            Ok(BuildGrantStep::Reuse)
        },
        None => {
            if now >= expiry {
                return Err(ApiError::conflict("the original hosted build authorization window expired"));
            }
            Ok(BuildGrantStep::Issue)
        },
    }
}

/// The execution state a pipeline intent records when its build is
/// dispatched: the dispatch's execution, run name and grant, in the Tekton
/// namespace, for this operation. Members are in key order.
pub open spec fn spec_build_execution_state(dispatch: Json, operation_id: Seq<char>) -> Json {
    Json::Object(
        seq![
            ("execution_id"@, or_null(dispatch.get("execution_id"@))),
            ("hosted_operation_id"@, Json::Str(operation_id)),
            ("permission_grant_id"@, or_null(dispatch.get("permission_grant_id"@))),
            ("pipeline_run_name"@, at(dispatch, seq!["pipeline_run_manifest"@, "metadata"@, "name"@])),
            ("pipeline_run_namespace"@, Json::Str("tekton-pipelines"@)),
            ("state"@, Json::Str("dispatching"@)),
        ],
    )
}

pub fn build_execution_state(dispatch: &JsonValue, operation_id: &str) -> (r: JsonValue)
    ensures
        r@ == spec_build_execution_state(dispatch@, operation_id@),
{
    proof {
        assert(path_view(seq!["pipeline_run_manifest", "metadata", "name"]) =~= seq!["pipeline_run_manifest"@, "metadata"@, "name"@]);
    }
    let mut es: Vec<(String, JsonValue)> = Vec::new();
    obj_insert(&mut es, "execution_id", member_or_null(dispatch, "execution_id"));
    obj_insert(&mut es, "hosted_operation_id", JsonValue::Str(String::from_str(operation_id)));
    obj_insert(&mut es, "permission_grant_id", member_or_null(dispatch, "permission_grant_id"));
    obj_insert(&mut es, "pipeline_run_name", at_exec(dispatch, &["pipeline_run_manifest", "metadata", "name"]));
    obj_insert(&mut es, "pipeline_run_namespace", JsonValue::Str(String::from_str("tekton-pipelines")));
    obj_insert(&mut es, "state", JsonValue::Str(String::from_str("dispatching")));
    proof {
        lemma_object_view(es);
        assert(entries_view(es@) =~= spec_build_execution_state(dispatch@, operation_id@)->Object_0);
    }
    JsonValue::Object(es)
}

/// A pipeline intent whose build was already dispatched must still name the
/// dispatch's execution and this operation.
pub open spec fn spec_build_identity_kept(intent: Json, dispatch: Json, operation_id: Seq<char>) -> bool {
    &&& at(intent, seq!["execution_state"@, "execution_id"@]) == or_null(dispatch.get("execution_id"@))
    &&& at(intent, seq!["execution_state"@, "hosted_operation_id"@]) == Json::Str(operation_id)
}

pub fn check_build_identity(intent: &JsonValue, dispatch: &JsonValue, operation_id: &str) -> (r: Result<(), ApiError>)
    ensures
        r is Ok <==> spec_build_identity_kept(intent@, dispatch@, operation_id@),
        r matches Err(e) ==> e.kind == ErrorKind::Conflict && e.message@ == "hosted build execution identity changed"@,
{
    proof {
        assert(path_view(seq!["execution_state", "execution_id"]) =~= seq!["execution_state"@, "execution_id"@]);
        assert(path_view(seq!["execution_state", "hosted_operation_id"]) =~= seq!["execution_state"@, "hosted_operation_id"@]);
    }
    let recorded = at_exec(intent, &["execution_state", "execution_id"]);
    let dispatched = member_or_null(dispatch, "execution_id");
    let owner = at_exec(intent, &["execution_state", "hosted_operation_id"]);
    let same_owner = match &owner {
        JsonValue::Str(s) => str_eq(s.as_str(), operation_id),
        _ => false,
    };
    if !json_equal(&recorded, &dispatched) || !same_owner {
        return Err(ApiError::conflict("hosted build execution identity changed"));
    }
    Ok(())
}

/// A build grant never outlives its operation's deadline nor the half hour
/// after the operation was created, however often the step is retried.
pub proof fn lemma_build_grant_bounded(created_at: i64, deadline: i64)
    ensures
        spec_build_grant_expiry(created_at as int, deadline as int) <= deadline,
        spec_build_grant_expiry(created_at as int, deadline as int) <= created_at + BUILD_GRANT_LIFETIME_MILLIS,
{
}

} // verus!
