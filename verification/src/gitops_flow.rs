//! The delivery flow of a GitOps ChangeSet as it is reported and relied on:
//! its delivery plan, the base revision that plan was made on, and the
//! latest evidence of each later step of that plan; and the immutable merge
//! a deployment requires when its WorkItem declares a GitOps target.
use vstd::prelude::*;
use vstd::utf8::encode_utf8;
use crate::artifacts::{content_view, latest_matching, latest_of, opt_index, StoredArtifact};
use crate::error::{ApiError, ErrorKind};
use crate::gitops::{
    gitops_base_revision_matches_change_set, gitops_delivery_plan_matches_change_set, spec_base_revision_matches,
    spec_delivery_plan_matches, StoredGitOpsChangeSet,
};
use crate::gitops_delivery::{delivery_plan_flags, kind_flags, plan_evidence_flags, plan_flags};
use crate::json::{entries_view, get_str, get_str_at, lemma_object_view, obj_insert, path_view, str_at, str_member, Json, JsonValue};
use crate::text::{opt_text, str_eq};
use crate::validation::{is_git_sha, spec_is_git_sha};

verus! {

/// `i` is the first artifact that is a delivery plan of the ChangeSet.
pub open spec fn is_first_plan(arts: Seq<StoredArtifact>, cs: StoredGitOpsChangeSet, i: int) -> bool {
    &&& 0 <= i < arts.len()
    &&& spec_delivery_plan_matches(arts[i], cs)
    &&& forall|k: int| 0 <= k < i ==> !spec_delivery_plan_matches(#[trigger] arts[k], cs)
}

pub open spec fn first_plan_index(arts: Seq<StoredArtifact>, cs: StoredGitOpsChangeSet) -> Option<int> {
    if exists|i: int| is_first_plan(arts, cs, i) {
        Some(choose|i: int| is_first_plan(arts, cs, i))
    } else {
        None
    }
}

/// `i` is the first artifact with id `base_id` that is a current base
/// revision of the ChangeSet.
pub open spec fn is_first_base(arts: Seq<StoredArtifact>, base_id: Seq<char>, cs: StoredGitOpsChangeSet, i: int) -> bool {
    &&& 0 <= i < arts.len()
    &&& arts[i].id@ == base_id && spec_base_revision_matches(arts[i], cs)
    &&& forall|k: int| 0 <= k < i ==> !(#[trigger] arts[k].id@ == base_id && spec_base_revision_matches(arts[k], cs))
}

pub open spec fn first_base_index(arts: Seq<StoredArtifact>, base_id: Seq<char>, cs: StoredGitOpsChangeSet) -> Option<int> {
    if exists|i: int| is_first_base(arts, base_id, cs, i) {
        Some(choose|i: int| is_first_base(arts, base_id, cs, i))
    } else {
        None
    }
}

/// The base revision a delivery plan names.
pub open spec fn plan_base_revision_id(plan: StoredArtifact) -> Option<Seq<char>> {
    match content_view(plan) {
        Some(c) => str_at(c, seq!["source"@, "base_revision_artifact_id"@]),
        None => None,
    }
}

/// The positions the delivery flow is made of.
pub struct DeliveryFlow {
    pub plan: usize,
    pub base_revision: usize,
    pub latest_preflight: Option<usize>,
    pub latest_execution: Option<usize>,
    pub latest_result: Option<usize>,
    pub latest_observation: Option<usize>,
    pub latest_merge: Option<usize>,
}

pub open spec fn spec_latest_for(arts: Seq<StoredArtifact>, kind: Seq<char>, plan_id: Seq<char>) -> Option<int> {
    latest_of(arts, kind_flags(arts, kind, plan_id))
}

fn first_plan(artifacts: &Vec<StoredArtifact>, cs: &StoredGitOpsChangeSet) -> (r: Option<usize>)
    ensures
        opt_index(r) == first_plan_index(artifacts@, *cs),
{
    let mut i: usize = 0;
    while i < artifacts.len()
        invariant
            i <= artifacts@.len(),
            forall|k: int| 0 <= k < i ==> !spec_delivery_plan_matches(#[trigger] artifacts@[k], *cs),
        decreases artifacts@.len() - i,
    {
        if gitops_delivery_plan_matches_change_set(&artifacts[i], cs) {
            proof {
                let w = i as int;
                assert(is_first_plan(artifacts@, *cs, w));
                let c = choose|c: int| is_first_plan(artifacts@, *cs, c);
                if c < w {
                    assert(!spec_delivery_plan_matches(artifacts@[c], *cs));
                } else if c > w {
                    assert(!spec_delivery_plan_matches(artifacts@[w], *cs));
                }
            }
            return Some(i);
        }
        i = i + 1;
    }
    None
}

fn first_base_revision(artifacts: &Vec<StoredArtifact>, base_id: &str, cs: &StoredGitOpsChangeSet) -> (r: Option<usize>)
    ensures
        opt_index(r) == first_base_index(artifacts@, base_id@, *cs),
{
    let mut i: usize = 0;
    while i < artifacts.len()
        invariant
            i <= artifacts@.len(),
            forall|k: int| 0 <= k < i ==> !(#[trigger] artifacts@[k].id@ == base_id@ && spec_base_revision_matches(artifacts@[k], *cs)),
        decreases artifacts@.len() - i,
    {
        if str_eq(artifacts[i].id.as_str(), base_id) && gitops_base_revision_matches_change_set(&artifacts[i], cs) {
            proof {
                let w = i as int;
                assert(is_first_base(artifacts@, base_id@, *cs, w));
                let c = choose|c: int| is_first_base(artifacts@, base_id@, *cs, c);
                if c < w {
                    assert(!(artifacts@[c].id@ == base_id@ && spec_base_revision_matches(artifacts@[c], *cs)));
                } else if c > w {
                    assert(!(artifacts@[w].id@ == base_id@ && spec_base_revision_matches(artifacts@[w], *cs)));
                }
            }
            return Some(i);
        }
        i = i + 1;
    }
    None
}

fn latest_for(artifacts: &Vec<StoredArtifact>, kind: &str, plan_id: &str) -> (r: Option<usize>)
    ensures
        opt_index(r) == spec_latest_for(artifacts@, kind@, plan_id@),
{
    let flags = plan_evidence_flags(artifacts, kind, plan_id);
    latest_matching(artifacts, &flags)
}

/// The flow of a ChangeSet, or the reason its plan's base is unusable.
pub open spec fn spec_delivery_flow(arts: Seq<StoredArtifact>, cs: StoredGitOpsChangeSet) -> Result<Option<(int, int)>, Seq<char>> {
    match first_plan_index(arts, cs) {
        None => Ok(None),
        Some(p) => match plan_base_revision_id(arts[p]) {
            None => Err("GitOps delivery plan has no base revision provenance"@),
            Some(base_id) => match first_base_index(arts, base_id, cs) {
                None => Err("GitOps delivery plan base revision is no longer current"@),
                Some(b) => Ok(Some((p, b))),
            },
        },
    }
}

/// Assemble the delivery flow of a ChangeSet from its run's artifacts: the
/// first plan of its current revision, that plan's own base revision (which
/// must still be current), and the latest preflight, execution, result,
/// pull-request observation and merge of that plan.
pub fn gitops_delivery_flow(artifacts: &Vec<StoredArtifact>, cs: &StoredGitOpsChangeSet) -> (r: Result<Option<DeliveryFlow>, ApiError>)
    ensures
        match r {
            Ok(None) => spec_delivery_flow(artifacts@, *cs) == Ok::<Option<(int, int)>, Seq<char>>(None),
            Ok(Some(f)) => {
                let plan_id = artifacts@[f.plan as int].id@;
                &&& spec_delivery_flow(artifacts@, *cs) == Ok::<Option<(int, int)>, Seq<char>>(Some((f.plan as int, f.base_revision as int)))
                &&& opt_index(f.latest_preflight) == spec_latest_for(artifacts@, "gitops_delivery_preflight"@, plan_id)
                &&& opt_index(f.latest_execution) == spec_latest_for(artifacts@, "gitops_delivery_execution"@, plan_id)
                &&& opt_index(f.latest_result) == spec_latest_for(artifacts@, "gitops_delivery_result"@, plan_id)
                &&& opt_index(f.latest_observation) == spec_latest_for(artifacts@, "gitops_delivery_pr_observation"@, plan_id)
                &&& opt_index(f.latest_merge) == spec_latest_for(artifacts@, "gitops_delivery_merge"@, plan_id)
            },
            Err(e) => e.kind == ErrorKind::Conflict && spec_delivery_flow(artifacts@, *cs) == Err::<Option<(int, int)>, Seq<char>>(e.message@),
        },
{
    let p = match first_plan(artifacts, cs) {
        None => {
            return Ok(None);
        },
        Some(p) => p,
    };
    let plan = &artifacts[p];
    proof {
        assert(path_view(seq!["source", "base_revision_artifact_id"]) =~= seq!["source"@, "base_revision_artifact_id"@]);
    }
    let base_id = match &plan.content_json {
        Some(c) => get_str_at(c, &["source", "base_revision_artifact_id"]),
        None => None,
    };
    let base_id = match base_id {
        None => {
            return Err(ApiError::conflict("GitOps delivery plan has no base revision provenance"));
        },
        Some(b) => b,
    };
    let b = match first_base_revision(artifacts, base_id, cs) {
        None => {
            return Err(ApiError::conflict("GitOps delivery plan base revision is no longer current"));
        },
        Some(b) => b,
    };
    let plan_id = plan.id.as_str();
    Ok(Some(DeliveryFlow {
        plan: p,
        base_revision: b,
        latest_preflight: latest_for(artifacts, "gitops_delivery_preflight", plan_id),
        latest_execution: latest_for(artifacts, "gitops_delivery_execution", plan_id),
        latest_result: latest_for(artifacts, "gitops_delivery_result", plan_id),
        latest_observation: latest_for(artifacts, "gitops_delivery_pr_observation", plan_id),
        latest_merge: latest_for(artifacts, "gitops_delivery_merge", plan_id),
    }))
}

/// The GitOps target a WorkItem declares for a deployment: none (the
/// non-GitOps path), or both its repository and its reference.
pub fn declared_gitops_target(repository: Option<&str>, reference: Option<&str>) -> (r: Result<Option<(String, String)>, ApiError>)
    ensures
        match (repository, reference) {
            (None, None) => r matches Ok(None),
            (Some(repo), Some(rf)) => r matches Ok(Some((a, b))) && a@ == repo@ && b@ == rf@,
            _ => r matches Err(e) && e.kind == ErrorKind::Conflict && e.message@
                == "WorkItem must declare both gitops_repo and gitops_ref before Argo execution"@,
        },
{
    match (repository, reference) {
        (None, None) => Ok(None),
        (Some(repo), Some(rf)) => Ok(Some((String::from_str(repo), String::from_str(rf)))),
        _ => Err(ApiError::conflict("WorkItem must declare both gitops_repo and gitops_ref before Argo execution")),
    }
}

/// A deployment on a declared GitOps target needs the approved ChangeSet of
/// its pipeline intent, on exactly that repository and reference.
pub fn check_deployment_change_set(change_set: Option<&StoredGitOpsChangeSet>, repository: &str, reference: &str) -> (r: Result<(), ApiError>)
    ensures
        match change_set {
            None => r matches Err(e) && e.kind == ErrorKind::Conflict && e.message@
                == "Deployment requires a GitOps ChangeSet for the completed PipelineIntent"@,
            Some(cs) => if cs.status@ == "approved"@ && cs.gitops_repo@ == repository@ && cs.gitops_ref@ == reference@ {
                r is Ok
            } else {
                r matches Err(e) && e.kind == ErrorKind::Conflict && e.message@
                    == "GitOps ChangeSet is not the current approved target declared by the WorkItem"@
            },
        },
{
    let cs = match change_set {
        None => {
            return Err(ApiError::conflict("Deployment requires a GitOps ChangeSet for the completed PipelineIntent"));
        },
        Some(cs) => cs,
    };
    if !str_eq(cs.status.as_str(), "approved") || !str_eq(cs.gitops_repo.as_str(), repository) || !str_eq(cs.gitops_ref.as_str(), reference) {
        return Err(ApiError::conflict("GitOps ChangeSet is not the current approved target declared by the WorkItem"));
    }
    Ok(())
}

/// A merge is usable by a deployment when it names a full commit SHA.
pub open spec fn spec_merge_names_commit(merge: StoredArtifact) -> bool {
    content_view(merge) matches Some(c) && str_member(c, "merge_commit_sha"@) matches Some(sha) && spec_is_git_sha(encode_utf8(sha))
}

/// The deployment requires the observed, immutable pull-request merge of the
/// delivery flow.
pub fn check_deployment_merge(merge: Option<&StoredArtifact>) -> (r: Result<(), ApiError>)
    ensures
        match merge {
            None => r matches Err(e) && e.kind == ErrorKind::Conflict && e.message@
                == "Deployment requires an observed immutable GitOps pull-request merge"@,
            Some(m) => if spec_merge_names_commit(*m) {
                r is Ok
            } else {
                r matches Err(e) && e.kind == ErrorKind::Conflict && e.message@
                    == "GitOps merge evidence has no valid immutable merge commit SHA"@
            },
        },
{
    let m = match merge {
        None => {
            return Err(ApiError::conflict("Deployment requires an observed immutable GitOps pull-request merge"));
        },
        Some(m) => m,
    };
    let ok = match &m.content_json {
        Some(c) => match get_str(c, "merge_commit_sha") {
            Some(sha) => is_git_sha(sha),
            None => false,
        },
        None => false,
    };
    if !ok {
        return Err(ApiError::conflict("GitOps merge evidence has no valid immutable merge commit SHA"));
    }
    Ok(())
}

/// The plan a delivery is authorized on, or why there is none: the latest
/// delivery plan of the ChangeSet's current revision, with its own base
/// revision still current.
pub open spec fn spec_current_delivery_plan(arts: Seq<StoredArtifact>, cs: StoredGitOpsChangeSet) -> Result<(int, int), Seq<char>> {
    match latest_of(arts, plan_flags(arts, cs)) {
        None => Err("GitOps ChangeSet needs a current immutable delivery plan before authorization"@),
        Some(p) => match plan_base_revision_id(arts[p]) {
            None => Err("GitOps delivery plan has no base revision provenance"@),
            Some(base_id) => match first_base_index(arts, base_id, cs) {
                None => Err("GitOps delivery plan base revision is no longer current"@),
                Some(b) => Ok((p, b)),
            },
        },
    }
}

/// Find the current delivery plan of a ChangeSet and its base revision.
pub fn current_gitops_delivery_plan(artifacts: &Vec<StoredArtifact>, cs: &StoredGitOpsChangeSet) -> (r: Result<(usize, usize), ApiError>)
    ensures
        match r {
            Ok((p, b)) => spec_current_delivery_plan(artifacts@, *cs) == Ok::<(int, int), Seq<char>>((p as int, b as int)),
            Err(e) => e.kind == ErrorKind::Conflict && spec_current_delivery_plan(artifacts@, *cs) == Err::<(int, int), Seq<char>>(e.message@),
        },
{
    let flags = delivery_plan_flags(artifacts, cs);
    let p = match latest_matching(artifacts, &flags) {
        None => {
            return Err(ApiError::conflict("GitOps ChangeSet needs a current immutable delivery plan before authorization"));
        },
        Some(p) => p,
    };
    proof {
        assert(path_view(seq!["source", "base_revision_artifact_id"]) =~= seq!["source"@, "base_revision_artifact_id"@]);
    }
    let base_id = match &artifacts[p].content_json {
        Some(c) => get_str_at(c, &["source", "base_revision_artifact_id"]),
        None => None,
    };
    let base_id = match base_id {
        None => {
            return Err(ApiError::conflict("GitOps delivery plan has no base revision provenance"));
        },
        Some(b) => b,
    };
    match first_base_revision(artifacts, base_id, cs) {
        None => Err(ApiError::conflict("GitOps delivery plan base revision is no longer current")),
        Some(b) => Ok((p, b)),
    }
}

/// Whether an artifact has `kind` and names `id` as its `key` member.
pub open spec fn spec_names_member(a: StoredArtifact, kind: Seq<char>, key: Seq<char>, id: Seq<char>) -> bool {
    &&& a.kind@ == kind
    &&& content_view(a) matches Some(c) && str_member(c, key) == Some(id)
}

pub open spec fn member_flags(arts: Seq<StoredArtifact>, kind: Seq<char>, key: Seq<char>, id: Seq<char>) -> Seq<bool> {
    Seq::new(arts.len(), |i: int| spec_names_member(arts[i], kind, key, id))
}

fn names_member_flags(artifacts: &Vec<StoredArtifact>, kind: &str, key: &str, id: &str) -> (r: Vec<bool>)
    ensures
        r@ == member_flags(artifacts@, kind@, key@, id@),
{
    let mut flags: Vec<bool> = Vec::new();
    let mut i: usize = 0;
    while i < artifacts.len()
        invariant
            i <= artifacts@.len(),
            flags@.len() == i,
            forall|j: int| 0 <= j < i ==> #[trigger] flags@[j] == spec_names_member(artifacts@[j], kind@, key@, id@),
        decreases artifacts@.len() - i,
    {
        let a = &artifacts[i];
        let named = str_eq(a.kind.as_str(), kind) && match &a.content_json {
            Some(c) => crate::json::str_member_is(c, key, id),
            None => false,
        };
        flags.push(named);
        i = i + 1;
    }
    proof {
        assert(flags@ =~= member_flags(artifacts@, kind@, key@, id@));
    }
    flags
}

/// The execution id an Argo sync execution artifact records.
pub open spec fn recorded_execution_id(a: StoredArtifact) -> Option<Seq<char>> {
    match content_view(a) {
        Some(c) => str_member(c, "execution_id"@),
        None => None,
    }
}

/// The Argo delivery flow of a DeploymentIntent: the latest sync execution
/// recorded for it, and the latest result of that execution.
pub open spec fn spec_deployment_flow(arts: Seq<StoredArtifact>, intent_id: Seq<char>) -> (Option<int>, Option<int>) {
    let execution = latest_of(arts, member_flags(arts, "argo_sync_execution"@, "deployment_intent_id"@, intent_id));
    let result = match execution {
        Some(e) => match recorded_execution_id(arts[e]) {
            Some(x) => latest_of(arts, member_flags(arts, "argo_sync_result"@, "execution_id"@, x)),
            None => None,
        },
        None => None,
    };
    (execution, result)
}

pub fn deployment_intent_delivery_flow(artifacts: &Vec<StoredArtifact>, intent_id: &str) -> (r: (Option<usize>, Option<usize>))
    ensures
        (opt_index(r.0), opt_index(r.1)) == spec_deployment_flow(artifacts@, intent_id@),
{
    let flags = names_member_flags(artifacts, "argo_sync_execution", "deployment_intent_id", intent_id);
    let execution = latest_matching(artifacts, &flags);
    let result = match execution {
        Some(e) => {
            let x = match &artifacts[e].content_json {
                Some(c) => get_str(c, "execution_id"),
                None => None,
            };
            match x {
                Some(x) => {
                    let result_flags = names_member_flags(artifacts, "argo_sync_result", "execution_id", x);
                    latest_matching(artifacts, &result_flags)
                },
                None => None,
            }
        },
        None => None,
    };
    (execution, result)
}

/// A PipelineIntent has at most one GitOps ChangeSet: an existing one is
/// returned again (`Ok(true)`) when it came from the same update plan
/// artifact and refused otherwise; without one a new ChangeSet is proposed
/// (`Ok(false)`).
pub fn existing_change_set_step(existing_plan_artifact_id: Option<&str>, plan_artifact_id: &str) -> (r: Result<bool, ApiError>)
    ensures
        match existing_plan_artifact_id {
            None => r == Ok::<bool, ApiError>(false),
            Some(x) => if x@ == plan_artifact_id@ {
                r == Ok::<bool, ApiError>(true)
            } else {
                r matches Err(e) && e.kind == ErrorKind::Conflict && e.message@
                    == "PipelineIntent already has a GitOps ChangeSet from a different update plan artifact"@
            },
        },
{
    match existing_plan_artifact_id {
        None => Ok(false),
        Some(x) => if str_eq(x, plan_artifact_id) {
            Ok(true)
        } else {
            Err(ApiError::conflict("PipelineIntent already has a GitOps ChangeSet from a different update plan artifact"))
        },
    }
}

/// The title of a proposed GitOps ChangeSet.
pub fn gitops_change_set_title(work_item_title: &str) -> (r: String)
    ensures
        r@ == "GitOps ChangeSet: "@ + work_item_title@,
{
    String::from_str("GitOps ChangeSet: ").concat(work_item_title)
}

/// The summary of a proposed GitOps ChangeSet.
pub fn gitops_change_set_summary(repository: &str, kustomization_path: &str, image_ref: &str) -> (r: String)
    ensures
        r@ == "Update "@ + repository@ + " at "@ + kustomization_path@ + " to digest-pinned image "@ + image_ref@ + "."@,
{
    String::from_str("Update ").concat(repository).concat(" at ").concat(kustomization_path).concat(
        " to digest-pinned image ",
    ).concat(image_ref).concat(".")
}

pub open spec fn execution_disabled_reason() -> Seq<char> {
    "requires approved GitOps ChangeSet, satisfied gitops_mutation gate, and dedicated GitOps writer"@
}

/// The document of a proposed GitOps ChangeSet: its source plan, with
/// execution disabled until approval, gate and writer exist. Members are in
/// key order.
pub open spec fn spec_gitops_change_set_document(plan: Json) -> Json {
    Json::Object(
        seq![
            ("execution"@, Json::Object(seq![("enabled"@, Json::Bool(false)), ("reason"@, Json::Str(execution_disabled_reason()))])),
            ("kind"@, Json::Str("gitops_change_set"@)),
            ("source_plan"@, plan),
            ("version"@, Json::Int(1)),
        ],
    )
}

pub fn gitops_change_set_document(plan: &JsonValue) -> (r: JsonValue)
    ensures
        r@ == spec_gitops_change_set_document(plan@),
{
    let mut ex: Vec<(String, JsonValue)> = Vec::new();
    obj_insert(&mut ex, "enabled", JsonValue::Bool(false));
    obj_insert(&mut ex, "reason", JsonValue::Str(String::from_str("requires approved GitOps ChangeSet, satisfied gitops_mutation gate, and dedicated GitOps writer")));
    proof {
        lemma_object_view(ex);
        assert(entries_view(ex@) =~= seq![("enabled"@, Json::Bool(false)), ("reason"@, Json::Str(execution_disabled_reason()))]);
    }
    let execution = JsonValue::Object(ex);
    let mut es: Vec<(String, JsonValue)> = Vec::new();
    obj_insert(&mut es, "execution", execution);
    obj_insert(&mut es, "kind", JsonValue::Str(String::from_str("gitops_change_set")));
    obj_insert(&mut es, "source_plan", plan.duplicate());
    obj_insert(&mut es, "version", JsonValue::Number(crate::json::JsonNumber::PosInt(1)));
    proof {
        lemma_object_view(es);
        assert(entries_view(es@) =~= spec_gitops_change_set_document(plan@)->Object_0);
    }
    JsonValue::Object(es)
}

} // verus!
