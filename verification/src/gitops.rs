//! GitOps ChangeSets: their review lifecycle, and which stored evidence
//! belongs to the current revision of a ChangeSet.
use vstd::prelude::*;
use vstd::utf8::encode_utf8;
use crate::artifacts::{content_view, is_latest, latest_matching, StoredArtifact};
use crate::error::{ApiError, ErrorKind};
use crate::json::{
    bool_member, get_bool, get_i64, get_str, i64_member, str_member, str_member_is, Json,
    JsonValue,
};
use crate::text::{contains_str, spec_contains, str_eq};
use crate::hashing::{hex_lower, sha256, sha256_digest, spec_hex};
use crate::json::{get_str_at, path_view, str_at, str_at_is};
use crate::validation::{is_git_sha, safe_relative_gitops_path, spec_is_git_sha, spec_safe_relative_path};

verus! {

/// A GitOps ChangeSet as stored.
pub struct StoredGitOpsChangeSet {
    pub id: String,
    pub work_item_id: String,
    pub work_plan_id: String,
    pub source_change_set_id: String,
    pub pipeline_intent_id: String,
    pub deployment_intent_id: String,
    pub run_id: String,
    pub status: String,
    pub revision: i64,
    pub material_hash: String,
    pub gitops_repo: String,
    pub gitops_ref: String,
    pub head_branch: String,
    pub kustomization_path: String,
    pub image_name: String,
    pub image_ref: String,
    pub gitops_change_set_json: JsonValue,
}

/// The delivery target declared by a WorkItem.
pub struct StoredWorkItem {
    pub id: String,
    pub target_environment: String,
    pub target_namespace: Option<String>,
    pub argo_application: Option<String>,
    pub gitops_repo: Option<String>,
    pub gitops_ref: Option<String>,
    pub production_impacting: bool,
}

/// The review states of a GitOps ChangeSet.
#[derive(Clone, Copy, Debug, PartialEq, Eq, Structural)]
pub enum GitOpsChangeSetStatus {
    Proposed,
    Approved,
    Rejected,
    Applied,
    Stale,
}

pub open spec fn spec_status_text(s: GitOpsChangeSetStatus) -> Seq<char> {
    match s {
        GitOpsChangeSetStatus::Proposed => "proposed"@,
        GitOpsChangeSetStatus::Approved => "approved"@,
        GitOpsChangeSetStatus::Rejected => "rejected"@,
        GitOpsChangeSetStatus::Applied => "applied"@,
        GitOpsChangeSetStatus::Stale => "stale"@,
    }
}

/// The status a stored text names, if it names one.
pub open spec fn spec_parse_status(t: Seq<char>) -> Option<GitOpsChangeSetStatus> {
    if t == "proposed"@ {
        Some(GitOpsChangeSetStatus::Proposed)
    } else if t == "approved"@ {
        Some(GitOpsChangeSetStatus::Approved)
    } else if t == "rejected"@ {
        Some(GitOpsChangeSetStatus::Rejected)
    } else if t == "applied"@ {
        Some(GitOpsChangeSetStatus::Applied)
    } else if t == "stale"@ {
        Some(GitOpsChangeSetStatus::Stale)
    } else {
        None
    }
}

/// A proposed ChangeSet may be approved, rejected or marked stale; an
/// approved one may be applied, rejected or marked stale; the other states
/// are final.
pub open spec fn spec_can_transition(from: GitOpsChangeSetStatus, to: GitOpsChangeSetStatus) -> bool {
    match from {
        GitOpsChangeSetStatus::Proposed => to == GitOpsChangeSetStatus::Approved || to
            == GitOpsChangeSetStatus::Rejected || to == GitOpsChangeSetStatus::Stale,
        GitOpsChangeSetStatus::Approved => to == GitOpsChangeSetStatus::Applied || to
            == GitOpsChangeSetStatus::Rejected || to == GitOpsChangeSetStatus::Stale,
        _ => false,
    }
}

impl GitOpsChangeSetStatus {
    pub fn parse(value: &str) -> (r: Result<GitOpsChangeSetStatus, ApiError>)
        ensures
            match r {
                Ok(s) => spec_parse_status(value@) == Some(s),
                Err(e) => spec_parse_status(value@) is None && e.kind == ErrorKind::BadRequest
                    && e.message@ == "unsupported GitOps change set status: "@ + value@,
            },
    {
        if str_eq(value, "proposed") {
            Ok(GitOpsChangeSetStatus::Proposed)
        } else if str_eq(value, "approved") {
            Ok(GitOpsChangeSetStatus::Approved)
        } else if str_eq(value, "rejected") {
            Ok(GitOpsChangeSetStatus::Rejected)
        } else if str_eq(value, "applied") {
            Ok(GitOpsChangeSetStatus::Applied)
        } else if str_eq(value, "stale") {
            Ok(GitOpsChangeSetStatus::Stale)
        } else {
            let message = String::from_str("unsupported GitOps change set status: ").concat(value);
            Err(ApiError::with_message(ErrorKind::BadRequest, message))
        }
    }

    pub fn as_str(self) -> (r: &'static str)
        ensures
            r@ == spec_status_text(self),
    {
        match self {
            GitOpsChangeSetStatus::Proposed => "proposed",
            GitOpsChangeSetStatus::Approved => "approved",
            GitOpsChangeSetStatus::Rejected => "rejected",
            GitOpsChangeSetStatus::Applied => "applied",
            GitOpsChangeSetStatus::Stale => "stale",
        }
    }

    pub fn ensure_can_transition_to(self, target: GitOpsChangeSetStatus) -> (r: Result<(), ApiError>)
        ensures
            r is Ok <==> spec_can_transition(self, target),
            r matches Err(e) ==> e.kind == ErrorKind::Conflict && e.message@ == "cannot transition GitOps change set from "@
                + spec_status_text(self) + " to "@ + spec_status_text(target),
    {
        let allowed = match self {
            GitOpsChangeSetStatus::Proposed => matches!(
                target,
                GitOpsChangeSetStatus::Approved | GitOpsChangeSetStatus::Rejected
                    | GitOpsChangeSetStatus::Stale
            ),
            GitOpsChangeSetStatus::Approved => matches!(
                target,
                GitOpsChangeSetStatus::Applied | GitOpsChangeSetStatus::Rejected
                    | GitOpsChangeSetStatus::Stale
            ),
            _ => false,
        };
        if allowed {
            Ok(())
        } else {
            let message = String::from_str("cannot transition GitOps change set from ").concat(
                self.as_str(),
            ).concat(" to ").concat(target.as_str());
            Err(ApiError::with_message(ErrorKind::Conflict, message))
        }
    }
}

/// Every status reads back as itself.
pub proof fn lemma_status_text_round_trip(s: GitOpsChangeSetStatus)
    ensures
        spec_parse_status(spec_status_text(s)) == Some(s),
{
    reveal_strlit("proposed");
    reveal_strlit("approved");
    reveal_strlit("rejected");
    reveal_strlit("applied");
    reveal_strlit("stale");
    assert("approved"@[0] != "proposed"@[0]);
    assert("rejected"@[0] != "proposed"@[0] && "rejected"@[0] != "approved"@[0]);
    assert("applied"@[0] != "proposed"@[0] && "applied"@[3] != "approved"@[3] && "applied"@[0]
        != "rejected"@[0]);
    assert("stale"@[0] != "proposed"@[0] && "stale"@[0] != "approved"@[0] && "stale"@[0]
        != "rejected"@[0] && "stale"@[0] != "applied"@[0]);
}

/// Rejected, applied and stale ChangeSets admit no further transition, and
/// no transition ever returns to the proposed state.
pub proof fn lemma_final_states(from: GitOpsChangeSetStatus, to: GitOpsChangeSetStatus)
    ensures
        (from == GitOpsChangeSetStatus::Rejected || from == GitOpsChangeSetStatus::Applied || from
            == GitOpsChangeSetStatus::Stale) ==> !spec_can_transition(from, to),
        spec_can_transition(from, to) ==> to != GitOpsChangeSetStatus::Proposed,
        !spec_can_transition(from, from),
{
}

/// The stage of a status along the lifecycle.
pub open spec fn status_rank(s: GitOpsChangeSetStatus) -> int {
    match s {
        GitOpsChangeSetStatus::Proposed => 0,
        GitOpsChangeSetStatus::Approved => 1,
        _ => 2,
    }
}

/// Every allowed transition moves strictly forward, so a ChangeSet passes
/// through at most two transitions.
pub proof fn lemma_transitions_advance(from: GitOpsChangeSetStatus, to: GitOpsChangeSetStatus)
    requires
        spec_can_transition(from, to),
    ensures
        status_rank(from) < status_rank(to),
{
}

/// The ChangeSet revision an evidence body refers to (revision 1 when the
/// body predates revisions).
pub open spec fn spec_artifact_revision(content: Json) -> int {
    match i64_member(content, "gitops_change_set_revision"@) {
        Some(n) => n,
        None => 1,
    }
}

pub fn gitops_artifact_change_set_revision(content: &JsonValue) -> (r: i64)
    ensures
        r as int == spec_artifact_revision(content@),
{
    match get_i64(content, "gitops_change_set_revision") {
        Some(n) => n,
        None => 1,
    }
}

/// A pull-request observation that saw the request closed without a merge.
pub open spec fn spec_observation_closed_unmerged(content: Option<Json>) -> bool {
    content matches Some(c) && {
        &&& str_member(c, "status"@) == Some("observed"@)
        &&& str_member(c, "pull_request_state"@) == Some("closed"@)
        &&& bool_member(c, "merged"@) == Some(false)
    }
}

/// A pull-request observation that may be refreshed: a failed observation,
/// or one that saw the request still open and unmerged.
pub open spec fn spec_observation_refreshable(content: Option<Json>) -> bool {
    content matches Some(c) && {
        ||| str_member(c, "status"@) == Some("failed"@)
        ||| {
            &&& str_member(c, "status"@) == Some("observed"@)
            &&& bool_member(c, "merged"@) != Some(true)
            &&& str_member(c, "pull_request_state"@) != Some("closed"@)
        }
    }
}

pub open spec fn opt_content(content: Option<&JsonValue>) -> Option<Json> {
    match content {
        Some(c) => Some(c@),
        None => None,
    }
}

pub fn gitops_observation_closed_unmerged(content: Option<&JsonValue>) -> (r: bool)
    ensures
        r == spec_observation_closed_unmerged(opt_content(content)),
{
    match content {
        Some(c) => str_member_is(c, "status", "observed") && str_member_is(
            c,
            "pull_request_state",
            "closed",
        ) && get_bool(c, "merged") == Some(false),
        None => false,
    }
}

pub fn gitops_observation_refreshable(content: Option<&JsonValue>) -> (r: bool)
    ensures
        r == spec_observation_refreshable(opt_content(content)),
{
    match content {
        Some(c) => {
            if str_member_is(c, "status", "failed") {
                return true;
            }
            str_member_is(c, "status", "observed") && get_bool(c, "merged") != Some(true)
                && !str_member_is(c, "pull_request_state", "closed")
        },
        None => false,
    }
}

/// An observation of a closed, unmerged pull request is never refreshed.
pub proof fn lemma_closed_unmerged_not_refreshable(content: Option<Json>)
    ensures
        spec_observation_closed_unmerged(content) ==> !spec_observation_refreshable(content),
{
    reveal_strlit("observed");
    reveal_strlit("failed");
    assert("observed"@[0] != "failed"@[0]);
}

/// A resolved base revision recorded for exactly this ChangeSet revision,
/// target and material, with an immutable base commit.
pub open spec fn spec_base_revision_matches(a: StoredArtifact, cs: StoredGitOpsChangeSet) -> bool {
    &&& a.kind@ == "gitops_base_revision"@
    &&& content_view(a) matches Some(c) && {
        &&& str_member(c, "status"@) == Some("resolved"@)
        &&& str_member(c, "gitops_change_set_id"@) == Some(cs.id@)
        &&& str_member(c, "material_hash"@) == Some(cs.material_hash@)
        &&& spec_artifact_revision(c) == cs.revision as int
        &&& str_member(c, "repository"@) == Some(cs.gitops_repo@)
        &&& str_member(c, "base_ref"@) == Some(cs.gitops_ref@)
        &&& str_member(c, "base_commit"@) matches Some(commit) && spec_is_git_sha(
            encode_utf8(commit),
        )
    }
}

pub fn gitops_base_revision_matches_change_set(
    artifact: &StoredArtifact,
    change_set: &StoredGitOpsChangeSet,
) -> (r: bool)
    ensures
        r == spec_base_revision_matches(*artifact, *change_set),
{
    if !str_eq(artifact.kind.as_str(), "gitops_base_revision") {
        return false;
    }
    match &artifact.content_json {
        Some(c) => str_member_is(c, "status", "resolved") && str_member_is(
            c,
            "gitops_change_set_id",
            change_set.id.as_str(),
        ) && str_member_is(c, "material_hash", change_set.material_hash.as_str())
            && gitops_artifact_change_set_revision(c) == change_set.revision && str_member_is(
            c,
            "repository",
            change_set.gitops_repo.as_str(),
        ) && str_member_is(c, "base_ref", change_set.gitops_ref.as_str()) && match get_str(
            c,
            "base_commit",
        ) {
            Some(commit) => is_git_sha(commit),
            None => false,
        },
        None => false,
    }
}

/// A delivery plan prepared for exactly this ChangeSet id, revision and
/// material hash.
pub open spec fn spec_delivery_plan_matches(a: StoredArtifact, cs: StoredGitOpsChangeSet) -> bool {
    &&& a.kind@ == "gitops_delivery_plan"@
    &&& content_view(a) matches Some(plan) && {
        let owner = plan.get("gitops_change_set"@);
        &&& owner matches Some(o) && str_member(o, "id"@) == Some(cs.id@)
        &&& owner matches Some(o) && i64_member(o, "revision"@) == Some(cs.revision as int)
        &&& owner matches Some(o) && str_member(o, "material_hash"@) == Some(cs.material_hash@)
    }
}

pub fn gitops_delivery_plan_matches_change_set(
    artifact: &StoredArtifact,
    change_set: &StoredGitOpsChangeSet,
) -> (r: bool)
    ensures
        r == spec_delivery_plan_matches(*artifact, *change_set),
{
    if !str_eq(artifact.kind.as_str(), "gitops_delivery_plan") {
        return false;
    }
    match &artifact.content_json {
        Some(plan) => match plan.get("gitops_change_set") {
            Some(owner) => str_member_is(owner, "id", change_set.id.as_str()) && get_i64(
                owner,
                "revision",
            ) == Some(change_set.revision) && str_member_is(
                owner,
                "material_hash",
                change_set.material_hash.as_str(),
            ),
            None => false,
        },
        None => false,
    }
}

/// Evidence of the given kind recorded against the given delivery plan.
pub open spec fn spec_artifact_matches_plan(a: StoredArtifact, kind: Seq<char>, plan_id: Seq<char>) -> bool {
    &&& a.kind@ == kind
    &&& content_view(a) matches Some(c) && str_member(c, "gitops_delivery_plan_artifact_id"@)
        == Some(plan_id)
}

pub fn gitops_delivery_artifact_matches_plan(
    artifact: &StoredArtifact,
    kind: &str,
    plan_id: &str,
) -> (r: bool)
    ensures
        r == spec_artifact_matches_plan(*artifact, kind@, plan_id@),
{
    str_eq(artifact.kind.as_str(), kind) && match &artifact.content_json {
        Some(c) => str_member_is(c, "gitops_delivery_plan_artifact_id", plan_id),
        None => false,
    }
}

pub open spec fn base_revision_flags(arts: Seq<StoredArtifact>, cs: StoredGitOpsChangeSet) -> Seq<bool> {
    Seq::new(arts.len(), |i: int| spec_base_revision_matches(arts[i], cs))
}

/// The latest resolved base revision of the current ChangeSet revision.
pub fn current_gitops_base_revision<'a>(
    artifacts: &'a Vec<StoredArtifact>,
    change_set: &StoredGitOpsChangeSet,
) -> (r: Result<&'a StoredArtifact, ApiError>)
    ensures
        r is Err <==> forall|j: int|
            0 <= j < artifacts@.len() ==> !spec_base_revision_matches(
                #[trigger] artifacts@[j],
                *change_set,
            ),
        r matches Ok(a) ==> exists|i: int|
            is_latest(artifacts@, base_revision_flags(artifacts@, *change_set), i) && *a
                == artifacts@[i],
        r matches Err(e) ==> e.kind == ErrorKind::Conflict
            && e.message@ == "GitOps delivery planning requires a current resolved immutable base revision"@,
{
    let mut flags: Vec<bool> = Vec::new();
    let mut i: usize = 0;
    while i < artifacts.len()
        invariant
            i <= artifacts@.len(),
            flags@.len() == i,
            forall|j: int|
                0 <= j < i ==> #[trigger] flags@[j] == spec_base_revision_matches(
                    artifacts@[j],
                    *change_set,
                ),
        decreases artifacts@.len() - i,
    {
        flags.push(gitops_base_revision_matches_change_set(&artifacts[i], change_set));
        i = i + 1;
    }
    proof {
        assert(flags@ =~= base_revision_flags(artifacts@, *change_set));
    }
    proof {
        assert forall|j: int| 0 <= j < artifacts@.len() implies (flags@[j]
            == spec_base_revision_matches(#[trigger] artifacts@[j], *change_set)) by {}
    }
    match latest_matching(artifacts, &flags) {
        Some(k) => Ok(&artifacts[k]),
        None => Err(
            ApiError::conflict(
                "GitOps delivery planning requires a current resolved immutable base revision",
            ),
        ),
    }
}

/// The target and safety constraints a ChangeSet must still satisfy for
/// delivery: a supported WorkItem target, the WorkItem's GitOps repository
/// and ref, a safe relative kustomization path and a digest-pinned image.
pub open spec fn spec_delivery_target_ok(
    work_item: StoredWorkItem,
    target_supported: bool,
    cs: StoredGitOpsChangeSet,
) -> bool {
    &&& target_supported
    &&& work_item.gitops_repo matches Some(r) && r@ == cs.gitops_repo@
    &&& work_item.gitops_ref matches Some(r) && r@ == cs.gitops_ref@
    &&& spec_safe_relative_path(encode_utf8(cs.kustomization_path@))
    &&& spec_contains(encode_utf8(cs.image_ref@), encode_utf8("@sha256:"@))
}

pub fn opt_str_is(o: &Option<String>, expected: &str) -> (r: bool)
    ensures
        r == (o matches Some(s) && s@ == expected@),
{
    match o {
        Some(s) => str_eq(s.as_str(), expected),
        None => false,
    }
}

/// `target_supported` states whether the WorkItem targets dev or the exact
/// protected production target.
pub fn ensure_gitops_delivery_target(
    work_item: &StoredWorkItem,
    target_supported: bool,
    change_set: &StoredGitOpsChangeSet,
) -> (r: Result<(), ApiError>)
    ensures
        r is Ok <==> spec_delivery_target_ok(*work_item, target_supported, *change_set),
        r matches Err(e) ==> e.kind == ErrorKind::Conflict && e.message@ == if !target_supported {
            "GitOps delivery is limited to dev or the exact protected production target"@
        } else {
            "GitOps ChangeSet no longer matches its declared WorkItem target or safety constraints"@
        },
{
    if !target_supported {
        return Err(
            ApiError::conflict(
                "GitOps delivery is limited to dev or the exact protected production target",
            ),
        );
    }
    if !opt_str_is(&work_item.gitops_repo, change_set.gitops_repo.as_str()) || !opt_str_is(
        &work_item.gitops_ref,
        change_set.gitops_ref.as_str(),
    ) || !safe_relative_gitops_path(change_set.kustomization_path.as_str()) || !contains_str(
        change_set.image_ref.as_str(),
        "@sha256:",
    ) {
        return Err(
            ApiError::conflict(
                "GitOps ChangeSet no longer matches its declared WorkItem target or safety constraints",
            ),
        );
    }
    Ok(())
}

/// A PipelineIntent as the GitOps ChangeSet materialization reads it.
pub struct StoredPipelineIntent {
    pub id: String,
    pub status: String,
    pub run_id: Option<String>,
    pub work_plan_id: String,
    pub change_set_id: String,
    pub intent_json: JsonValue,
}

/// The lineage of a DeploymentIntent.
pub struct DeploymentIntentLineage {
    pub id: String,
    pub pipeline_intent_id: String,
    pub change_set_id: String,
}

/// A ChangeSet may be materialized only from a deployment-eligible
/// PipelineIntent whose evidence is satisfied. `deployment_eligible` states
/// whether the intent's status allows deployment.
pub open spec fn spec_pipeline_ready_for_gitops(deployment_eligible: bool, intent: StoredPipelineIntent) -> bool {
    deployment_eligible && str_at(intent.intent_json@, seq!["evidence"@, "status"@]) == Some("satisfied"@)
}

pub fn check_pipeline_intent_for_gitops(deployment_eligible: bool, intent: &StoredPipelineIntent) -> (r:
    Result<(), ApiError>)
    ensures
        r is Ok <==> spec_pipeline_ready_for_gitops(deployment_eligible, *intent),
        r matches Err(e) ==> e.kind == ErrorKind::Conflict
            && e.message@ == "GitOps ChangeSet requires a completed PipelineIntent with satisfied evidence"@,
{
    proof {
        let p: Seq<&str> = seq!["evidence", "status"];
        assert(path_view(p) =~= seq!["evidence"@, "status"@]);
    }
    if !deployment_eligible || !str_at_is(&intent.intent_json, &["evidence", "status"], "satisfied") {
        return Err(
            ApiError::conflict(
                "GitOps ChangeSet requires a completed PipelineIntent with satisfied evidence",
            ),
        );
    }
    Ok(())
}

/// The update plan artifact must be a structured `gitops_update_plan` from
/// the PipelineIntent's run whose lineage names exactly this PipelineIntent,
/// WorkPlan and source ChangeSet.
pub open spec fn spec_update_plan_lineage_ok(artifact: StoredArtifact, intent: StoredPipelineIntent) -> bool {
    &&& intent.run_id is Some
    &&& artifact.kind@ == "gitops_update_plan"@
    &&& artifact.run_id matches Some(r) && r@ == intent.run_id->0@
    &&& content_view(artifact) matches Some(plan) && {
        &&& str_member(plan, "kind"@) == Some("gitops_update_plan"@)
        &&& i64_member(plan, "version"@) == Some(1int)
        &&& str_member(plan, "pipeline_intent_id"@) == Some(intent.id@)
        &&& str_member(plan, "work_plan_id"@) == Some(intent.work_plan_id@)
        &&& str_member(plan, "change_set_id"@) == Some(intent.change_set_id@)
    }
}

/// The refusal owed to an update plan artifact, in the order the checks run.
pub open spec fn spec_update_plan_refusal(artifact: StoredArtifact, intent: StoredPipelineIntent) -> Option<Seq<char>> {
    if intent.run_id is None {
        Some("GitOps ChangeSet requires PipelineIntent run provenance"@)
    } else if !(artifact.kind@ == "gitops_update_plan"@ && (artifact.run_id matches Some(r) && r@ == intent.run_id->0@)) {
        Some("GitOps ChangeSet must use a gitops_update_plan artifact from the PipelineIntent run"@)
    } else if content_view(artifact) is None {
        Some("GitOps update plan artifact is missing structured content"@)
    } else if !spec_update_plan_lineage_ok(artifact, intent) {
        Some("GitOps update plan artifact does not match PipelineIntent lineage"@)
    } else {
        None
    }
}

/// The structured update plan of a GitOps update plan artifact.
pub fn gitops_update_plan<'a>(artifact: &'a StoredArtifact, intent: &StoredPipelineIntent) -> (r:
    Result<&'a JsonValue, ApiError>)
    ensures
        r is Ok <==> spec_update_plan_lineage_ok(*artifact, *intent),
        r matches Ok(plan) ==> content_view(*artifact) == Some(plan@),
        r matches Err(e) ==> e.kind == ErrorKind::Conflict && spec_update_plan_refusal(*artifact, *intent) == Some(e.message@),
{
    let run_id = match &intent.run_id {
        Some(r) => r,
        None => {
            return Err(ApiError::conflict("GitOps ChangeSet requires PipelineIntent run provenance"));
        },
    };
    if !str_eq(artifact.kind.as_str(), "gitops_update_plan") || !opt_str_is(&artifact.run_id, run_id.as_str()) {
        return Err(
            ApiError::conflict(
                "GitOps ChangeSet must use a gitops_update_plan artifact from the PipelineIntent run",
            ),
        );
    }
    let plan = match &artifact.content_json {
        Some(p) => p,
        None => {
            return Err(ApiError::conflict("GitOps update plan artifact is missing structured content"));
        },
    };
    if !str_member_is(plan, "kind", "gitops_update_plan") || get_i64(plan, "version") != Some(1)
        || !str_member_is(plan, "pipeline_intent_id", intent.id.as_str()) || !str_member_is(
        plan,
        "work_plan_id",
        intent.work_plan_id.as_str(),
    ) || !str_member_is(plan, "change_set_id", intent.change_set_id.as_str()) {
        return Err(ApiError::conflict("GitOps update plan artifact does not match PipelineIntent lineage"));
    }
    Ok(plan)
}

/// The DeploymentIntent an update plan names, provided the plan belongs to
/// the WorkItem. `target_supported` states whether the WorkItem targets dev
/// or the exact protected production target.
pub open spec fn spec_plan_deployment_intent(plan: Json, work_item: StoredWorkItem, target_supported: bool) -> Option<Seq<char>> {
    if target_supported && str_member(plan, "work_item_id"@) == Some(work_item.id@) {
        str_member(plan, "deployment_intent_id"@)
    } else {
        None
    }
}

pub fn gitops_update_plan_deployment_intent(
    plan: &JsonValue,
    work_item: &StoredWorkItem,
    target_supported: bool,
) -> (r: Result<String, ApiError>)
    ensures
        match r {
            Ok(id) => spec_plan_deployment_intent(plan@, *work_item, target_supported) == Some(id@),
            Err(e) => spec_plan_deployment_intent(plan@, *work_item, target_supported) is None
                && e.kind == ErrorKind::Conflict && e.message@ == if !target_supported {
                "GitOps ChangeSet creation is limited to dev or the exact protected production target"@
            } else if str_member(plan@, "work_item_id"@) != Some(work_item.id@) {
                "GitOps update plan artifact does not match WorkItem lineage"@
            } else {
                "GitOps update plan missing deployment_intent_id"@
            },
        },
{
    if !target_supported {
        return Err(
            ApiError::conflict(
                "GitOps ChangeSet creation is limited to dev or the exact protected production target",
            ),
        );
    }
    if !str_member_is(plan, "work_item_id", work_item.id.as_str()) {
        return Err(ApiError::conflict("GitOps update plan artifact does not match WorkItem lineage"));
    }
    match get_str(plan, "deployment_intent_id") {
        Some(id) => Ok(id.to_owned()),
        None => Err(ApiError::conflict("GitOps update plan missing deployment_intent_id")),
    }
}

/// The immutable target and image update a ChangeSet is materialized with.
pub struct GitOpsUpdateTarget {
    pub gitops_repo: String,
    pub gitops_ref: String,
    pub head_branch: String,
    pub kustomization_path: String,
    pub image_name: String,
    pub image_ref: String,
    pub material_hash: String,
}

pub open spec fn plan_text(plan: Json, a: Seq<char>, b: Seq<char>) -> Option<Seq<char>> {
    str_at(plan, seq![a, b])
}

/// The text whose digest is an update plan's material hash.
pub open spec fn spec_material_text(plan: Json) -> Seq<char> {
    plan_text(plan, "gitops"@, "repository"@)->0 + "\n"@ + plan_text(plan, "gitops"@, "base_ref"@)->0
        + "\n"@ + plan_text(plan, "update"@, "kustomization_path"@)->0 + "\n"@ + plan_text(
        plan,
        "update"@,
        "image_name"@,
    )->0 + "\n"@ + plan_text(plan, "update"@, "new_image"@)->0
}

/// All fields present, the DeploymentIntent in the PipelineIntent's
/// lineage, the target still the WorkItem's, a safe path, a digest-pinned
/// image, and a material hash equal to the hex `digest` of the material text.
pub open spec fn spec_update_target_ok(
    plan: Json,
    intent: StoredPipelineIntent,
    work_item: StoredWorkItem,
    deployment_intent: DeploymentIntentLineage,
    digest: Seq<u8>,
) -> bool {
    &&& deployment_intent.pipeline_intent_id@ == intent.id@
    &&& deployment_intent.change_set_id@ == intent.change_set_id@
    &&& plan_text(plan, "gitops"@, "repository"@) is Some
    &&& plan_text(plan, "gitops"@, "base_ref"@) is Some
    &&& plan_text(plan, "gitops"@, "head_branch"@) is Some
    &&& plan_text(plan, "update"@, "kustomization_path"@) is Some
    &&& plan_text(plan, "update"@, "image_name"@) is Some
    &&& plan_text(plan, "update"@, "new_image"@) is Some
    &&& str_at(plan, seq!["material_hash"@]) is Some
    &&& work_item.gitops_repo matches Some(r) && Some(r@) == plan_text(plan, "gitops"@, "repository"@)
    &&& work_item.gitops_ref matches Some(r) && Some(r@) == plan_text(plan, "gitops"@, "base_ref"@)
    &&& spec_safe_relative_path(encode_utf8(plan_text(plan, "update"@, "kustomization_path"@)->0))
    &&& spec_contains(encode_utf8(plan_text(plan, "update"@, "new_image"@)->0), encode_utf8("@sha256:"@))
    &&& str_at(plan, seq!["material_hash"@])->0 == spec_hex(digest)
}

/// The refusal owed for an update plan, in the order the checks run.
pub open spec fn spec_update_target_refusal(
    plan: Json,
    intent: StoredPipelineIntent,
    work_item: StoredWorkItem,
    deployment_intent: DeploymentIntentLineage,
    digest: Seq<u8>,
) -> Option<Seq<char>> {
    if deployment_intent.pipeline_intent_id@ != intent.id@ || deployment_intent.change_set_id@ != intent.change_set_id@ {
        Some("GitOps update plan DeploymentIntent does not match PipelineIntent lineage"@)
    } else if plan_text(plan, "gitops"@, "repository"@) is None {
        Some("GitOps update plan missing repository"@)
    } else if plan_text(plan, "gitops"@, "base_ref"@) is None {
        Some("GitOps update plan missing base_ref"@)
    } else if plan_text(plan, "gitops"@, "head_branch"@) is None {
        Some("GitOps update plan missing head_branch"@)
    } else if plan_text(plan, "update"@, "kustomization_path"@) is None {
        Some("GitOps update plan missing kustomization_path"@)
    } else if plan_text(plan, "update"@, "image_name"@) is None {
        Some("GitOps update plan missing image_name"@)
    } else if plan_text(plan, "update"@, "new_image"@) is None {
        Some("GitOps update plan missing new_image"@)
    } else if str_at(plan, seq!["material_hash"@]) is None {
        Some("GitOps update plan missing material_hash"@)
    } else if !(work_item.gitops_repo matches Some(r) && Some(r@) == plan_text(plan, "gitops"@, "repository"@))
        || !(work_item.gitops_ref matches Some(r) && Some(r@) == plan_text(plan, "gitops"@, "base_ref"@))
        || !spec_safe_relative_path(encode_utf8(plan_text(plan, "update"@, "kustomization_path"@)->0))
        || !spec_contains(encode_utf8(plan_text(plan, "update"@, "new_image"@)->0), encode_utf8("@sha256:"@)) {
        Some("GitOps update plan no longer matches its declared WorkItem target or safety constraints"@)
    } else if str_at(plan, seq!["material_hash"@])->0 != spec_hex(digest) {
        Some("GitOps update plan material hash does not match its immutable target and image update"@)
    } else {
        None
    }
}

fn plan_field(plan: &JsonValue, a: &str, b: &str, missing: &str) -> (r: Result<String, ApiError>)
    ensures
        match r {
            Ok(s) => plan_text(plan@, a@, b@) == Some(s@),
            Err(e) => plan_text(plan@, a@, b@) is None && e.kind == ErrorKind::Conflict && e.message@ == missing@,
        },
{
    let path = [a, b];
    proof {
        assert(path_view(path@) =~= seq![a@, b@]);
    }
    match get_str_at(plan, &path) {
        Some(s) => Ok(s.to_owned()),
        None => Err(ApiError::conflict(missing)),
    }
}

/// Check a GitOps update plan against its lineage and target given the
/// SHA-256 `digest` of its material text.
pub fn verify_gitops_update_target(
    plan: &JsonValue,
    intent: &StoredPipelineIntent,
    work_item: &StoredWorkItem,
    deployment_intent: &DeploymentIntentLineage,
    digest: &[u8],
) -> (r: Result<GitOpsUpdateTarget, ApiError>)
    ensures
        r is Ok <==> spec_update_target_ok(plan@, *intent, *work_item, *deployment_intent, digest@),
        r matches Ok(t) ==> {
            &&& Some(t.gitops_repo@) == plan_text(plan@, "gitops"@, "repository"@)
            &&& Some(t.gitops_ref@) == plan_text(plan@, "gitops"@, "base_ref"@)
            &&& Some(t.head_branch@) == plan_text(plan@, "gitops"@, "head_branch"@)
            &&& Some(t.kustomization_path@) == plan_text(plan@, "update"@, "kustomization_path"@)
            &&& Some(t.image_name@) == plan_text(plan@, "update"@, "image_name"@)
            &&& Some(t.image_ref@) == plan_text(plan@, "update"@, "new_image"@)
            &&& t.material_hash@ == spec_hex(digest@)
        },
        r matches Err(e) ==> e.kind == ErrorKind::Conflict && spec_update_target_refusal(
            plan@,
            *intent,
            *work_item,
            *deployment_intent,
            digest@,
        ) == Some(e.message@),
{
    if !str_eq(deployment_intent.pipeline_intent_id.as_str(), intent.id.as_str()) || !str_eq(
        deployment_intent.change_set_id.as_str(),
        intent.change_set_id.as_str(),
    ) {
        return Err(
            ApiError::conflict(
                "GitOps update plan DeploymentIntent does not match PipelineIntent lineage",
            ),
        );
    }
    let gitops_repo = plan_field(plan, "gitops", "repository", "GitOps update plan missing repository")?;
    let gitops_ref = plan_field(plan, "gitops", "base_ref", "GitOps update plan missing base_ref")?;
    let head_branch = plan_field(plan, "gitops", "head_branch", "GitOps update plan missing head_branch")?;
    let kustomization_path = plan_field(
        plan,
        "update",
        "kustomization_path",
        "GitOps update plan missing kustomization_path",
    )?;
    let image_name = plan_field(plan, "update", "image_name", "GitOps update plan missing image_name")?;
    let image_ref = plan_field(plan, "update", "new_image", "GitOps update plan missing new_image")?;
    let hash_path = ["material_hash"];
    proof {
        assert(path_view(hash_path@) =~= seq!["material_hash"@]);
    }
    let material_hash = match get_str_at(plan, &hash_path) {
        Some(h) => h.to_owned(),
        None => {
            return Err(ApiError::conflict("GitOps update plan missing material_hash"));
        },
    };
    if !opt_str_is(&work_item.gitops_repo, gitops_repo.as_str()) || !opt_str_is(
        &work_item.gitops_ref,
        gitops_ref.as_str(),
    ) || !safe_relative_gitops_path(kustomization_path.as_str()) || !contains_str(
        image_ref.as_str(),
        "@sha256:",
    ) {
        return Err(
            ApiError::conflict(
                "GitOps update plan no longer matches its declared WorkItem target or safety constraints",
            ),
        );
    }
    let expected = hex_lower(digest);
    if !str_eq(material_hash.as_str(), expected.as_str()) {
        return Err(
            ApiError::conflict(
                "GitOps update plan material hash does not match its immutable target and image update",
            ),
        );
    }
    Ok(
        GitOpsUpdateTarget {
            gitops_repo,
            gitops_ref,
            head_branch,
            kustomization_path,
            image_name,
            image_ref,
            material_hash,
        },
    )
}

fn material_text(plan: &JsonValue) -> (r: Option<String>)
    ensures
        match r {
            Some(t) => {
                &&& plan_text(plan@, "gitops"@, "repository"@) is Some
                &&& plan_text(plan@, "gitops"@, "base_ref"@) is Some
                &&& plan_text(plan@, "update"@, "kustomization_path"@) is Some
                &&& plan_text(plan@, "update"@, "image_name"@) is Some
                &&& plan_text(plan@, "update"@, "new_image"@) is Some
                &&& t@ == spec_material_text(plan@)
            },
            None => !(plan_text(plan@, "gitops"@, "repository"@) is Some && plan_text(plan@, "gitops"@, "base_ref"@) is Some
                && plan_text(plan@, "update"@, "kustomization_path"@) is Some && plan_text(plan@, "update"@, "image_name"@) is Some
                && plan_text(plan@, "update"@, "new_image"@) is Some),
        },
{
    let repo = plan_field(plan, "gitops", "repository", "");
    let base_ref = plan_field(plan, "gitops", "base_ref", "");
    let path = plan_field(plan, "update", "kustomization_path", "");
    let name = plan_field(plan, "update", "image_name", "");
    let image = plan_field(plan, "update", "new_image", "");
    match (repo, base_ref, path, name, image) {
        (Ok(a), Ok(b), Ok(c), Ok(d), Ok(e)) => Some(
            a.concat("\n").concat(b.as_str()).concat("\n").concat(c.as_str()).concat("\n").concat(
                d.as_str(),
            ).concat("\n").concat(e.as_str()),
        ),
        _ => None,
    }
}

/// Check a GitOps update plan against its lineage, its WorkItem target and
/// the SHA-256 digest of its material (`repository`, `base_ref`,
/// `kustomization_path`, `image_name` and `new_image`, one per line).
pub fn gitops_update_target(
    plan: &JsonValue,
    intent: &StoredPipelineIntent,
    work_item: &StoredWorkItem,
    deployment_intent: &DeploymentIntentLineage,
) -> (r: Result<GitOpsUpdateTarget, ApiError>)
    ensures
        r is Ok <==> spec_update_target_ok(
            plan@,
            *intent,
            *work_item,
            *deployment_intent,
            sha256_digest(encode_utf8(spec_material_text(plan@))),
        ),
        r matches Ok(t) ==> {
            &&& Some(t.gitops_repo@) == plan_text(plan@, "gitops"@, "repository"@)
            &&& Some(t.gitops_ref@) == plan_text(plan@, "gitops"@, "base_ref"@)
            &&& Some(t.head_branch@) == plan_text(plan@, "gitops"@, "head_branch"@)
            &&& Some(t.kustomization_path@) == plan_text(plan@, "update"@, "kustomization_path"@)
            &&& Some(t.image_name@) == plan_text(plan@, "update"@, "image_name"@)
            &&& Some(t.image_ref@) == plan_text(plan@, "update"@, "new_image"@)
            &&& t.material_hash@ == spec_hex(sha256_digest(encode_utf8(spec_material_text(plan@))))
        },
        r matches Err(e) ==> e.kind == ErrorKind::Conflict && spec_update_target_refusal(
            plan@,
            *intent,
            *work_item,
            *deployment_intent,
            sha256_digest(encode_utf8(spec_material_text(plan@))),
        ) == Some(e.message@),
{
    match material_text(plan) {
        Some(text) => {
            let digest = sha256(text.as_str().as_bytes());
            verify_gitops_update_target(plan, intent, work_item, deployment_intent, digest.as_slice())
        },
        None => verify_gitops_update_target(plan, intent, work_item, deployment_intent, &[]),
    }
}

} // verus!
