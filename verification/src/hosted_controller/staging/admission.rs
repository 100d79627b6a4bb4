//! Admission of the staging writer's plan and single write: the plan is
//! bound to the saved authority and cannot change once observed or
//! admitted, a write is admitted once, and the GitOps ChangeSet recording
//! the plan is exactly the original one-file update.
use vstd::prelude::*;
use crate::error::{ApiError, ErrorKind};
use crate::gitops::StoredGitOpsChangeSet;
use crate::json::{entries_view, json_equal, lemma_object_view, obj_insert, Json, JsonValue};
use crate::text::str_eq;

verus! {

/// A plan is accepted only for the saved authority.
pub fn check_plan_authority(request_authority_hash: &str, authority_hash: &str) -> (r: Result<(), ApiError>)
    ensures
        r is Ok <==> request_authority_hash@ == authority_hash@,
        r matches Err(e) ==> e.kind == ErrorKind::Conflict && e.message@ == "staging plan has different authority"@,
{
    if !str_eq(request_authority_hash, authority_hash) {
        return Err(ApiError::conflict("staging plan has different authority"));
    }
    Ok(())
}

/// A valid plan is recorded only when it is the one already saved (if any)
/// and no write was admitted yet.
pub fn check_plan_replacement(saved_plan_differs: bool, admitted: bool) -> (r: Result<(), ApiError>)
    ensures
        r is Ok <==> !saved_plan_differs && !admitted,
        r matches Err(e) ==> e.kind == ErrorKind::Conflict && e.message@ == if saved_plan_differs {
            "the original staging plan cannot be replaced after observation"@
        } else {
            "staging write was admitted; its plan cannot change"@
        },
{
    if saved_plan_differs {
        return Err(ApiError::conflict("the original staging plan cannot be replaced after observation"));
    }
    if admitted {
        return Err(ApiError::conflict("staging write was admitted; its plan cannot change"));
    }
    Ok(())
}

/// The refusal of a write admission, if any: the saved plan must exist, the
/// request must carry the saved authority and plan hashes, and nothing may
/// have been admitted or committed before.
pub open spec fn spec_attempt_refusal(
    plan_hash: Option<Seq<char>>,
    request_authority_hash: Seq<char>,
    authority_hash: Seq<char>,
    request_plan_hash: Seq<char>,
    attempt_recorded: bool,
    commit_recorded: bool,
) -> Option<Seq<char>> {
    match plan_hash {
        None => Some("staging admission requires its persisted digest diff"@),
        Some(p) => if request_authority_hash != authority_hash || request_plan_hash != p {
            Some("staging admission differs from the saved authority or plan"@)
        } else if attempt_recorded || commit_recorded {
            Some("the original staging write was already admitted; observe GitHub without another mutation"@)
        } else {
            None
        },
    }
}

/// Decide whether the one staging write may be admitted.
pub fn admit_staging_attempt(
    plan_hash: Option<&str>,
    request_authority_hash: &str,
    authority_hash: &str,
    request_plan_hash: &str,
    attempt_recorded: bool,
    commit_recorded: bool,
) -> (r: Result<(), ApiError>)
    ensures
        r is Ok <==> spec_attempt_refusal(crate::text::opt_str_view(plan_hash), request_authority_hash@, authority_hash@, request_plan_hash@, attempt_recorded, commit_recorded) is None,
        r matches Err(e) ==> e.kind == ErrorKind::Conflict && Some(e.message@) == spec_attempt_refusal(
            crate::text::opt_str_view(plan_hash),
            request_authority_hash@,
            authority_hash@,
            request_plan_hash@,
            attempt_recorded,
            commit_recorded,
        ),
{
    let p = match plan_hash {
        None => {
            return Err(ApiError::conflict("staging admission requires its persisted digest diff"));
        },
        Some(p) => p,
    };
    if !str_eq(request_authority_hash, authority_hash) || !str_eq(request_plan_hash, p) {
        return Err(ApiError::conflict("staging admission differs from the saved authority or plan"));
    }
    if attempt_recorded || commit_recorded {
        return Err(ApiError::conflict("the original staging write was already admitted; observe GitHub without another mutation"));
    }
    Ok(())
}

/// The bounded reader sees the staging context only once a write was
/// admitted and the reader itself was dispatched.
pub fn check_reader_context(observe_only: bool, admitted: bool, reader_dispatched: bool) -> (r: Result<(), ApiError>)
    ensures
        r is Ok <==> !(observe_only && (!admitted || !reader_dispatched)),
        r matches Err(e) ==> e.kind == ErrorKind::Conflict && e.message@ == "the bounded staging reader has not been dispatched"@,
{
    if observe_only && (!admitted || !reader_dispatched) {
        return Err(ApiError::conflict("the bounded staging reader has not been dispatched"));
    }
    Ok(())
}

/// The writer may advance only when it is not the reader, nothing was
/// admitted yet, the saved authority is still current and the baseline is
/// fresh.
pub fn context_may_advance(observe_only: bool, admitted: bool, current: bool, baseline_fresh: bool) -> (r: bool)
    ensures
        r == (!observe_only && !admitted && current && baseline_fresh),
{
    !observe_only && !admitted && current && baseline_fresh
}

/// The document of the staging GitOps ChangeSet: one atomic commit on
/// `main` expecting the plan's base head, for staging only. Members are in
/// key order.
pub open spec fn spec_change_set_document(authority: Json, plan_artifact_id: Seq<char>, plan_hash: Seq<char>, expected_head: Seq<char>) -> Json {
    Json::Object(
        seq![
            ("authority"@, authority),
            ("delivery_mode"@, Json::Str("atomic_commit_expected_head"@)),
            ("expected_head_oid"@, Json::Str(expected_head)),
            ("plan_artifact_id"@, Json::Str(plan_artifact_id)),
            ("plan_hash"@, Json::Str(plan_hash)),
            ("production_authorized"@, Json::Bool(false)),
            ("scope"@, Json::Str("staging"@)),
            ("target_ref"@, Json::Str("main"@)),
        ],
    )
}

pub fn change_set_document(authority: &JsonValue, plan_artifact_id: &str, plan_hash: &str, expected_head: &str) -> (r: JsonValue)
    ensures
        r@ == spec_change_set_document(authority@, plan_artifact_id@, plan_hash@, expected_head@),
{
    let mut es: Vec<(String, JsonValue)> = Vec::new();
    obj_insert(&mut es, "authority", authority.duplicate());
    obj_insert(&mut es, "delivery_mode", JsonValue::Str(String::from_str("atomic_commit_expected_head")));
    obj_insert(&mut es, "expected_head_oid", JsonValue::Str(String::from_str(expected_head)));
    obj_insert(&mut es, "plan_artifact_id", JsonValue::Str(String::from_str(plan_artifact_id)));
    obj_insert(&mut es, "plan_hash", JsonValue::Str(String::from_str(plan_hash)));
    obj_insert(&mut es, "production_authorized", JsonValue::Bool(false));
    obj_insert(&mut es, "scope", JsonValue::Str(String::from_str("staging")));
    obj_insert(&mut es, "target_ref", JsonValue::Str(String::from_str("main")));
    proof {
        lemma_object_view(es);
        assert(entries_view(es@) =~= spec_change_set_document(authority@, plan_artifact_id@, plan_hash@, expected_head@)->Object_0);
    }
    JsonValue::Object(es)
}

/// What the staging ChangeSet must be: its identity and lineage, the plan
/// artifact, the document and its hash, the GitOps repository on `main`,
/// and the one image pin at the authority's coordinates.
pub struct ChangeSetExpectation {
    pub id: String,
    pub work_item_id: String,
    pub pipeline_intent_id: String,
    pub source_change_set_id: String,
    pub plan_artifact_id: String,
    pub document: JsonValue,
    pub document_hash: String,
    pub gitops_repository: String,
    pub kustomization_path: String,
    pub image_name: String,
    pub image_ref: String,
}

pub open spec fn spec_change_set_is_original(cs: StoredGitOpsChangeSet, plan_artifact_id: Seq<char>, x: ChangeSetExpectation) -> bool {
    &&& cs.id@ == x.id@
    &&& cs.work_item_id@ == x.work_item_id@
    &&& cs.pipeline_intent_id@ == x.pipeline_intent_id@
    &&& cs.source_change_set_id@ == x.source_change_set_id@
    &&& plan_artifact_id == x.plan_artifact_id@
    &&& cs.gitops_change_set_json@ == x.document@
    &&& cs.material_hash@ == x.document_hash@
    &&& cs.gitops_repo@ == x.gitops_repository@
    &&& cs.gitops_ref@ == "main"@
    &&& cs.head_branch@ == "main"@
    &&& cs.kustomization_path@ == x.kustomization_path@
    &&& cs.image_name@ == x.image_name@
    &&& cs.image_ref@ == x.image_ref@
}

/// An existing staging ChangeSet (with the plan artifact it records) must
/// be exactly the original one-file plan.
pub fn check_staging_change_set(cs: &StoredGitOpsChangeSet, plan_artifact_id: &str, x: &ChangeSetExpectation) -> (r: Result<(), ApiError>)
    ensures
        r is Ok <==> spec_change_set_is_original(*cs, plan_artifact_id@, *x),
        r matches Err(e) ==> e.kind == ErrorKind::Conflict && e.message@
            == "staging GitOps ChangeSet differs from the original one-file plan"@,
{
    let same = str_eq(cs.id.as_str(), x.id.as_str()) && str_eq(cs.work_item_id.as_str(), x.work_item_id.as_str())
        && str_eq(cs.pipeline_intent_id.as_str(), x.pipeline_intent_id.as_str()) && str_eq(
        cs.source_change_set_id.as_str(),
        x.source_change_set_id.as_str(),
    ) && str_eq(plan_artifact_id, x.plan_artifact_id.as_str()) && json_equal(&cs.gitops_change_set_json, &x.document)
        && str_eq(cs.material_hash.as_str(), x.document_hash.as_str()) && str_eq(cs.gitops_repo.as_str(), x.gitops_repository.as_str())
        && str_eq(cs.gitops_ref.as_str(), "main") && str_eq(cs.head_branch.as_str(), "main") && str_eq(
        cs.kustomization_path.as_str(),
        x.kustomization_path.as_str(),
    ) && str_eq(cs.image_name.as_str(), x.image_name.as_str()) && str_eq(cs.image_ref.as_str(), x.image_ref.as_str());
    if !same {
        return Err(ApiError::conflict("staging GitOps ChangeSet differs from the original one-file plan"));
    }
    Ok(())
}

} // verus!
