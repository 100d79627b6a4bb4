//! The Argo CD sync runner's view of a deployment: the context it may act
//! on only while the deployment's preflight still holds and its execution
//! record names the current contract, grant and GitOps merge; and the
//! results it records, once per execution and status.
use vstd::prelude::*;
use vstd::utf8::encode_utf8;
use crate::artifacts::{content_view, StoredArtifact};
use crate::error::{ApiError, ErrorKind};
use crate::deployment::{opt_json_text, DeploymentTarget};
use crate::json::{
    entries_view, get_str, json_opt_str, json_str, lemma_object_view, obj_insert, str_member, str_member_is, Json, JsonValue,
};
use crate::text::{opt_str_view, str_eq};
use crate::validation::{is_git_sha, spec_is_git_sha};

verus! {

/// The refusal of a sync runner's context request, if any: the preflight
/// must still be ready with the executor allowing the application, and the
/// execution record must be structured and name the current contract,
/// grant and GitOps merge (absent exactly where they are absent).
pub open spec fn spec_sync_context_refusal(
    ready: bool,
    application_allowed: bool,
    content: Option<Json>,
    contract_id: Option<Seq<char>>,
    grant_id: Option<Seq<char>>,
    merge_id: Option<Seq<char>>,
) -> Option<Seq<char>> {
    if !ready || !application_allowed {
        Some("Argo sync context is no longer authorized or the executor is unavailable"@)
    } else {
        match content {
            Some(c) => if !(c is Object) {
                Some("Argo sync execution has no structured content"@)
            } else if str_member(c, "deployment_contract_id"@) != contract_id || str_member(c, "permission_grant_id"@) != grant_id {
                Some("Argo sync execution is stale relative to its contract or permission grant"@)
            } else if str_member(c, "gitops_delivery_merge_artifact_id"@) != merge_id {
                Some("Argo sync execution is stale relative to its observed GitOps merge"@)
            } else {
                None
            },
            None => Some("Argo sync execution has no structured content"@),
        }
    }
}

fn member_is_opt(c: &JsonValue, key: &str, expected: Option<&str>) -> (r: bool)
    ensures
        r == (str_member(c@, key@) == opt_str_view(expected)),
{
    match expected {
        Some(e) => str_member_is(c, key, e),
        None => get_str(c, key).is_none(),
    }
}

/// Decide whether the sync runner may receive its context.
pub fn check_argo_sync_context(
    ready: bool,
    application_allowed: bool,
    content: Option<&JsonValue>,
    contract_id: Option<&str>,
    grant_id: Option<&str>,
    merge_id: Option<&str>,
) -> (r: Result<(), ApiError>)
    ensures
        r is Ok <==> spec_sync_context_refusal(ready, application_allowed, crate::json::opt_json_view(content), opt_str_view(contract_id), opt_str_view(grant_id), opt_str_view(merge_id)) is None,
        r matches Err(e) ==> e.kind == ErrorKind::Conflict && Some(e.message@) == spec_sync_context_refusal(
            ready,
            application_allowed,
            crate::json::opt_json_view(content),
            opt_str_view(contract_id),
            opt_str_view(grant_id),
            opt_str_view(merge_id),
        ),
{
    if !ready || !application_allowed {
        return Err(ApiError::conflict("Argo sync context is no longer authorized or the executor is unavailable"));
    }
    let c = match content {
        Some(c) => c,
        None => {
            return Err(ApiError::conflict("Argo sync execution has no structured content"));
        },
    };
    if !c.is_object() {
        return Err(ApiError::conflict("Argo sync execution has no structured content"));
    }
    if !member_is_opt(c, "deployment_contract_id", contract_id) || !member_is_opt(c, "permission_grant_id", grant_id) {
        return Err(ApiError::conflict("Argo sync execution is stale relative to its contract or permission grant"));
    }
    if !member_is_opt(c, "gitops_delivery_merge_artifact_id", merge_id) {
        return Err(ApiError::conflict("Argo sync execution is stale relative to its observed GitOps merge"));
    }
    Ok(())
}

/// The revision the runner syncs to: the merge's commit when it is a full
/// commit SHA.
pub open spec fn spec_sync_revision(merge: Option<StoredArtifact>) -> Option<Seq<char>> {
    match merge {
        Some(m) => match content_view(m) {
            Some(c) => match str_member(c, "merge_commit_sha"@) {
                Some(sha) => if spec_is_git_sha(encode_utf8(sha)) {
                    Some(sha)
                } else {
                    None
                },
                None => None,
            },
            None => None,
        },
        None => None,
    }
}

pub fn argo_sync_revision(merge: Option<&StoredArtifact>) -> (r: Option<String>)
    ensures
        match r {
            Some(s) => spec_sync_revision(match merge {
                Some(m) => Some(*m),
                None => None,
            }) == Some(s@),
            None => spec_sync_revision(match merge {
                Some(m) => Some(*m),
                None => None,
            }) is None,
        },
{
    match merge {
        Some(m) => match &m.content_json {
            Some(c) => match get_str(c, "merge_commit_sha") {
                Some(sha) => if is_git_sha(sha) {
                    Some(String::from_str(sha))
                } else {
                    None
                },
                None => None,
            },
            None => None,
        },
        None => None,
    }
}

/// A sync result already recorded for this execution and status.
pub open spec fn spec_is_sync_result(a: StoredArtifact, execution_id: Seq<char>, status: Seq<char>) -> bool {
    &&& a.kind@ == "argo_sync_result"@
    &&& content_view(a) matches Some(c) && str_member(c, "execution_id"@) == Some(execution_id) && str_member(c, "status"@)
        == Some(status)
}

/// The first recorded result of this execution with this status; recording
/// the same result again returns it instead of adding another.
pub fn existing_sync_result(artifacts: &Vec<StoredArtifact>, execution_id: &str, status: &str) -> (r: Option<usize>)
    ensures
        match r {
            Some(i) => i < artifacts@.len() && spec_is_sync_result(artifacts@[i as int], execution_id@, status@) && forall|k: int|
                0 <= k < i ==> !spec_is_sync_result(#[trigger] artifacts@[k], execution_id@, status@),
            None => forall|k: int| 0 <= k < artifacts@.len() ==> !spec_is_sync_result(#[trigger] artifacts@[k], execution_id@, status@),
        },
{
    let mut i: usize = 0;
    while i < artifacts.len()
        invariant
            i <= artifacts@.len(),
            forall|k: int| 0 <= k < i ==> !spec_is_sync_result(#[trigger] artifacts@[k], execution_id@, status@),
        decreases artifacts@.len() - i,
    {
        let a = &artifacts[i];
        let found = str_eq(a.kind.as_str(), "argo_sync_result") && match &a.content_json {
            Some(c) => str_member_is(c, "execution_id", execution_id) && str_member_is(c, "status", status),
            None => false,
        };
        if found {
            return Some(i);
        }
        i = i + 1;
    }
    None
}

/// What a recorded sync result holds. Members are in key order.
pub open spec fn spec_sync_result_content(execution_id: Seq<char>, status: Seq<char>, intent_id: Seq<char>, details: Json) -> Json {
    Json::Object(
        seq![
            ("deployment_intent_id"@, Json::Str(intent_id)),
            ("details"@, details),
            ("execution_id"@, Json::Str(execution_id)),
            ("status"@, Json::Str(status)),
        ],
    )
}

pub fn sync_result_content(execution_id: &str, status: &str, intent_id: &str, details: JsonValue) -> (r: JsonValue)
    ensures
        r@ == spec_sync_result_content(execution_id@, status@, intent_id@, details@),
{
    let ghost d = details@;
    let mut es: Vec<(String, JsonValue)> = Vec::new();
    obj_insert(&mut es, "deployment_intent_id", JsonValue::Str(String::from_str(intent_id)));
    obj_insert(&mut es, "details", details);
    obj_insert(&mut es, "execution_id", JsonValue::Str(String::from_str(execution_id)));
    obj_insert(&mut es, "status", JsonValue::Str(String::from_str(status)));
    proof {
        lemma_object_view(es);
        assert(entries_view(es@) =~= spec_sync_result_content(execution_id@, status@, intent_id@, d)->Object_0);
    }
    JsonValue::Object(es)
}

/// What a recorded GitOps delivery result holds. Members are in key order.
pub open spec fn spec_delivery_result_content(execution_id: Seq<char>, status: Seq<char>, change_set_id: Seq<char>, plan_id: Seq<char>, details: Json) -> Json {
    Json::Object(
        seq![
            ("details"@, details),
            ("execution_id"@, Json::Str(execution_id)),
            ("gitops_change_set_id"@, Json::Str(change_set_id)),
            ("gitops_delivery_plan_artifact_id"@, Json::Str(plan_id)),
            ("status"@, Json::Str(status)),
        ],
    )
}

pub fn delivery_result_content(execution_id: &str, status: &str, change_set_id: &str, plan_id: &str, details: JsonValue) -> (r: JsonValue)
    ensures
        r@ == spec_delivery_result_content(execution_id@, status@, change_set_id@, plan_id@, details@),
{
    let ghost d = details@;
    let mut es: Vec<(String, JsonValue)> = Vec::new();
    obj_insert(&mut es, "details", details);
    obj_insert(&mut es, "execution_id", JsonValue::Str(String::from_str(execution_id)));
    obj_insert(&mut es, "gitops_change_set_id", JsonValue::Str(String::from_str(change_set_id)));
    obj_insert(&mut es, "gitops_delivery_plan_artifact_id", JsonValue::Str(String::from_str(plan_id)));
    obj_insert(&mut es, "status", JsonValue::Str(String::from_str(status)));
    proof {
        lemma_object_view(es);
        assert(entries_view(es@) =~= spec_delivery_result_content(execution_id@, status@, change_set_id@, plan_id@, d)->Object_0);
    }
    JsonValue::Object(es)
}

/// The GitOps merge an execution is bound to, as a value.
pub open spec fn merge_of(merge: Option<&StoredArtifact>) -> Option<StoredArtifact> {
    match merge {
        Some(m) => Some(*m),
        None => None,
    }
}

/// The id of the bound GitOps merge, if any.
pub open spec fn spec_merge_id(merge: Option<StoredArtifact>) -> Option<Seq<char>> {
    match merge {
        Some(m) => Some(m.id@),
        None => None,
    }
}

/// The merge commit the bound GitOps merge records, if any.
pub open spec fn spec_merge_commit(merge: Option<StoredArtifact>) -> Option<Seq<char>> {
    match merge {
        Some(m) => match content_view(m) {
            Some(c) => str_member(c, "merge_commit_sha"@),
            None => None,
        },
        None => None,
    }
}

/// What a dispatched Argo sync execution records: the intent, contract,
/// grant and GitOps merge it is bound to, its target, who dispatched it and
/// why. Members are in key order.
pub open spec fn spec_sync_execution_content(
    execution_id: Seq<char>,
    intent_id: Seq<char>,
    contract_id: Seq<char>,
    grant_id: Seq<char>,
    merge: Option<StoredArtifact>,
    target: DeploymentTarget,
    actor: Option<Seq<char>>,
    reason: Seq<char>,
) -> Json {
    Json::Object(
        seq![
            ("deployment_contract_id"@, Json::Str(contract_id)),
            ("deployment_intent_id"@, Json::Str(intent_id)),
            ("dispatched_by"@, opt_json_text(actor)),
            ("execution_id"@, Json::Str(execution_id)),
            ("gitops_delivery_merge_artifact_id"@, opt_json_text(spec_merge_id(merge))),
            ("gitops_merge_commit_sha"@, opt_json_text(spec_merge_commit(merge))),
            ("permission_grant_id"@, Json::Str(grant_id)),
            ("reason"@, Json::Str(reason)),
            ("status"@, Json::Str("dispatched"@)),
            ("target"@, Json::Object(
                seq![
                    ("argo_application"@, Json::Str(target.application@)),
                    ("environment"@, Json::Str(target.environment@)),
                    ("namespace"@, Json::Str(target.namespace@)),
                ],
            )),
        ],
    )
}

fn merge_id_json(merge: Option<&StoredArtifact>) -> (r: JsonValue)
    ensures
        r@ == opt_json_text(spec_merge_id(merge_of(merge))),
{
    match merge {
        Some(m) => json_str(m.id.as_str()),
        None => JsonValue::Null,
    }
}

fn merge_commit_json(merge: Option<&StoredArtifact>) -> (r: JsonValue)
    ensures
        r@ == opt_json_text(spec_merge_commit(merge_of(merge))),
{
    match merge {
        Some(m) => match &m.content_json {
            Some(c) => match get_str(c, "merge_commit_sha") {
                Some(sha) => json_str(sha),
                None => JsonValue::Null,
            },
            None => JsonValue::Null,
        },
        None => JsonValue::Null,
    }
}

/// The record of an Argo sync execution about to be dispatched.
pub fn sync_execution_content(
    execution_id: &str,
    intent_id: &str,
    contract_id: &str,
    grant_id: &str,
    merge: Option<&StoredArtifact>,
    target: &DeploymentTarget,
    actor: Option<&str>,
    reason: &str,
) -> (r: JsonValue)
    ensures
        r@ == spec_sync_execution_content(
            execution_id@,
            intent_id@,
            contract_id@,
            grant_id@,
            merge_of(merge),
            *target,
            opt_str_view(actor),
            reason@,
        ),
{
    let mut t: Vec<(String, JsonValue)> = Vec::new();
    obj_insert(&mut t, "argo_application", json_str(target.application.as_str()));
    obj_insert(&mut t, "environment", json_str(target.environment.as_str()));
    obj_insert(&mut t, "namespace", json_str(target.namespace.as_str()));
    proof {
        lemma_object_view(t);
    }
    let ghost tv = JsonValue::Object(t)@;
    let mut es: Vec<(String, JsonValue)> = Vec::new();
    obj_insert(&mut es, "deployment_contract_id", json_str(contract_id));
    obj_insert(&mut es, "deployment_intent_id", json_str(intent_id));
    obj_insert(&mut es, "dispatched_by", json_opt_str(actor));
    obj_insert(&mut es, "execution_id", json_str(execution_id));
    obj_insert(&mut es, "gitops_delivery_merge_artifact_id", merge_id_json(merge));
    obj_insert(&mut es, "gitops_merge_commit_sha", merge_commit_json(merge));
    obj_insert(&mut es, "permission_grant_id", json_str(grant_id));
    obj_insert(&mut es, "reason", json_str(reason));
    obj_insert(&mut es, "status", json_str("dispatched"));
    obj_insert(&mut es, "target", JsonValue::Object(t));
    proof {
        lemma_object_view(es);
        let spec = spec_sync_execution_content(
            execution_id@,
            intent_id@,
            contract_id@,
            grant_id@,
            merge_of(merge),
            *target,
            opt_str_view(actor),
            reason@,
        );
        assert(tv->Object_0 =~= spec->Object_0[9].1->Object_0);
        assert(entries_view(es@) =~= spec->Object_0);
    }
    JsonValue::Object(es)
}

/// What the record of a dispatched Argo sync Job holds. Members are in key
/// order.
pub open spec fn spec_sync_dispatch_content(
    execution_id: Seq<char>,
    execution_artifact_id: Seq<char>,
    intent_id: Seq<char>,
    job_name: Seq<char>,
) -> Json {
    Json::Object(
        seq![
            ("argo_sync_execution_artifact_id"@, Json::Str(execution_artifact_id)),
            ("deployment_intent_id"@, Json::Str(intent_id)),
            ("execution_id"@, Json::Str(execution_id)),
            ("executor_job_name"@, Json::Str(job_name)),
        ],
    )
}

pub fn sync_dispatch_content(execution_id: &str, execution_artifact_id: &str, intent_id: &str, job_name: &str) -> (r:
    JsonValue)
    ensures
        r@ == spec_sync_dispatch_content(execution_id@, execution_artifact_id@, intent_id@, job_name@),
{
    let mut es: Vec<(String, JsonValue)> = Vec::new();
    obj_insert(&mut es, "argo_sync_execution_artifact_id", json_str(execution_artifact_id));
    obj_insert(&mut es, "deployment_intent_id", json_str(intent_id));
    obj_insert(&mut es, "execution_id", json_str(execution_id));
    obj_insert(&mut es, "executor_job_name", json_str(job_name));
    proof {
        lemma_object_view(es);
        assert(entries_view(es@) =~= spec_sync_dispatch_content(execution_id@, execution_artifact_id@, intent_id@, job_name@)->Object_0);
    }
    JsonValue::Object(es)
}

/// The audit payload of a dispatched Argo sync. Members are in key order.
pub open spec fn spec_sync_dispatched_audit(
    execution_id: Seq<char>,
    execution_artifact_id: Seq<char>,
    dispatch_artifact_id: Seq<char>,
    job_name: Seq<char>,
    contract_id: Seq<char>,
    grant_id: Seq<char>,
    merge: Option<StoredArtifact>,
) -> Json {
    Json::Object(
        seq![
            ("deployment_contract_id"@, Json::Str(contract_id)),
            ("dispatch_artifact_id"@, Json::Str(dispatch_artifact_id)),
            ("execution_artifact_id"@, Json::Str(execution_artifact_id)),
            ("execution_id"@, Json::Str(execution_id)),
            ("executor_job_name"@, Json::Str(job_name)),
            ("gitops_delivery_merge_artifact_id"@, opt_json_text(spec_merge_id(merge))),
            ("permission_grant_id"@, Json::Str(grant_id)),
        ],
    )
}

pub fn sync_dispatched_audit(
    execution_id: &str,
    execution_artifact_id: &str,
    dispatch_artifact_id: &str,
    job_name: &str,
    contract_id: &str,
    grant_id: &str,
    merge: Option<&StoredArtifact>,
) -> (r: JsonValue)
    ensures
        r@ == spec_sync_dispatched_audit(
            execution_id@,
            execution_artifact_id@,
            dispatch_artifact_id@,
            job_name@,
            contract_id@,
            grant_id@,
            merge_of(merge),
        ),
{
    let mut es: Vec<(String, JsonValue)> = Vec::new();
    obj_insert(&mut es, "deployment_contract_id", json_str(contract_id));
    obj_insert(&mut es, "dispatch_artifact_id", json_str(dispatch_artifact_id));
    obj_insert(&mut es, "execution_artifact_id", json_str(execution_artifact_id));
    obj_insert(&mut es, "execution_id", json_str(execution_id));
    obj_insert(&mut es, "executor_job_name", json_str(job_name));
    obj_insert(&mut es, "gitops_delivery_merge_artifact_id", merge_id_json(merge));
    obj_insert(&mut es, "permission_grant_id", json_str(grant_id));
    proof {
        lemma_object_view(es);
        assert(entries_view(es@) =~= spec_sync_dispatched_audit(
            execution_id@,
            execution_artifact_id@,
            dispatch_artifact_id@,
            job_name@,
            contract_id@,
            grant_id@,
            merge_of(merge),
        )->Object_0);
    }
    JsonValue::Object(es)
}

/// The details of a sync result whose Job could not be dispatched.
pub open spec fn spec_dispatch_failure_details() -> Json {
    Json::Object(seq![("error_code"@, Json::Str("job_dispatch_failed"@))])
}

pub fn dispatch_failure_details() -> (r: JsonValue)
    ensures
        r@ == spec_dispatch_failure_details(),
{
    let mut es: Vec<(String, JsonValue)> = Vec::new();
    obj_insert(&mut es, "error_code", json_str("job_dispatch_failed"));
    proof {
        lemma_object_view(es);
        assert(entries_view(es@) =~= spec_dispatch_failure_details()->Object_0);
    }
    JsonValue::Object(es)
}

/// The audit payload of an Argo sync whose Job could not be dispatched.
/// Members are in key order.
pub open spec fn spec_sync_dispatch_failed_audit(
    execution_id: Seq<char>,
    execution_artifact_id: Seq<char>,
    result_artifact_id: Seq<char>,
    merge: Option<StoredArtifact>,
) -> Json {
    Json::Object(
        seq![
            ("error_code"@, Json::Str("job_dispatch_failed"@)),
            ("execution_artifact_id"@, Json::Str(execution_artifact_id)),
            ("execution_id"@, Json::Str(execution_id)),
            ("gitops_delivery_merge_artifact_id"@, opt_json_text(spec_merge_id(merge))),
            ("result_artifact_id"@, Json::Str(result_artifact_id)),
        ],
    )
}

pub fn sync_dispatch_failed_audit(
    execution_id: &str,
    execution_artifact_id: &str,
    result_artifact_id: &str,
    merge: Option<&StoredArtifact>,
) -> (r: JsonValue)
    ensures
        r@ == spec_sync_dispatch_failed_audit(execution_id@, execution_artifact_id@, result_artifact_id@, merge_of(merge)),
{
    let mut es: Vec<(String, JsonValue)> = Vec::new();
    obj_insert(&mut es, "error_code", json_str("job_dispatch_failed"));
    obj_insert(&mut es, "execution_artifact_id", json_str(execution_artifact_id));
    obj_insert(&mut es, "execution_id", json_str(execution_id));
    obj_insert(&mut es, "gitops_delivery_merge_artifact_id", merge_id_json(merge));
    obj_insert(&mut es, "result_artifact_id", json_str(result_artifact_id));
    proof {
        lemma_object_view(es);
        assert(entries_view(es@) =~= spec_sync_dispatch_failed_audit(
            execution_id@,
            execution_artifact_id@,
            result_artifact_id@,
            merge_of(merge),
        )->Object_0);
    }
    JsonValue::Object(es)
}

} // verus!

