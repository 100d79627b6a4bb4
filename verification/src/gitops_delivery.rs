//! GitOps delivery: the immutable source a delivery plan binds, the checks a
//! delivery must pass before the dedicated writer may run, and the rules for
//! re-proposing a ChangeSet after a delivery that did not merge.
use vstd::prelude::*;
use vstd::utf8::encode_utf8;
use crate::deployment::opt_json_text;
use crate::artifacts::{content_view, latest_matching, latest_of, opt_index, StoredArtifact};
use crate::error::{ApiError, ErrorKind};
use crate::execution_checks::{check_view, checks_json, execution_check, spec_checks_json, ExecutionCheck};
use crate::gitops::{
    gitops_delivery_artifact_matches_plan, gitops_delivery_plan_matches_change_set,
    gitops_observation_closed_unmerged, spec_artifact_matches_plan, spec_delivery_plan_matches,
    spec_observation_closed_unmerged, StoredGitOpsChangeSet,
};
use crate::json::{
    entries_view, get_str, get_str_at, json_opt_str, json_str, lemma_object_view, obj_insert, path_view, str_at, str_member,
    str_member_is, Json, JsonValue,
};
use crate::text::{contains_str, decimal_i64, opt_str_view, opt_text, spec_contains, spec_decimal_int, str_eq};
use crate::validation::{is_git_sha, safe_relative_gitops_path, spec_is_git_sha, spec_safe_relative_path};

verus! {

/// The source and update a delivery plan commits the writer to.
pub struct GitOpsDeliveryPlanSource {
    pub repository: String,
    pub base_ref: String,
    pub base_commit: String,
    pub head_branch: String,
    pub kustomization_path: String,
    pub image_name: String,
    pub image_ref: String,
}

pub open spec fn member_object(v: Json, key: Seq<char>) -> Option<Json> {
    match v.get(key) {
        Some(m) => if m is Object {
            Some(m)
        } else {
            None
        },
        None => None,
    }
}

/// The plan binds exactly the ChangeSet's target and update, on an
/// immutable base commit, a safe path and a digest-pinned image.
pub open spec fn spec_plan_source_ok(content: Json, cs: StoredGitOpsChangeSet) -> bool {
    &&& content is Object
    &&& str_member(content, "operation"@) == Some("branch_and_pull_request"@)
    &&& member_object(content, "source"@) matches Some(source) && member_object(content, "update"@) matches Some(update) && {
        &&& str_member(source, "repository"@) == Some(cs.gitops_repo@)
        &&& str_member(source, "base_ref"@) == Some(cs.gitops_ref@)
        &&& str_member(source, "head_branch"@) == Some(cs.head_branch@)
        &&& str_member(source, "base_commit"@) matches Some(commit) && spec_is_git_sha(encode_utf8(commit))
        &&& str_member(update, "kustomization_path"@) == Some(cs.kustomization_path@)
        &&& str_member(update, "image_name"@) == Some(cs.image_name@)
        &&& str_member(update, "new_image"@) == Some(cs.image_ref@)
        &&& spec_safe_relative_path(encode_utf8(cs.kustomization_path@))
        &&& spec_contains(encode_utf8(cs.image_ref@), encode_utf8("@sha256:"@))
    }
}

/// The refusal owed to a delivery plan whose content is `content`, against
/// the ChangeSet `cs`, if any: structure first, then each required field in
/// order, then the match with the immutable target.
pub open spec fn spec_plan_source_refusal(content: Option<Json>, cs: StoredGitOpsChangeSet) -> Option<Seq<char>> {
    let src = "GitOps delivery plan source"@;
    let upd = "GitOps delivery plan update"@;
    match content {
        None => Some("GitOps delivery plan has no structured content"@),
        Some(c) => if !(c is Object) {
            Some("GitOps delivery plan has no structured content"@)
        } else if str_member(c, "operation"@) != Some("branch_and_pull_request"@) {
            Some("GitOps delivery plan does not describe a branch-and-pull-request operation"@)
        } else if member_object(c, "source"@) is None {
            Some("GitOps delivery plan has no source provenance"@)
        } else if member_object(c, "update"@) is None {
            Some("GitOps delivery plan has no update operation"@)
        } else {
            let source = member_object(c, "source"@)->0;
            let update = member_object(c, "update"@)->0;
            if str_member(source, "repository"@) is None {
                Some(src + " has no "@ + "repository"@)
            } else if str_member(source, "base_ref"@) is None {
                Some(src + " has no "@ + "base_ref"@)
            } else if str_member(source, "base_commit"@) is None {
                Some(src + " has no "@ + "base_commit"@)
            } else if str_member(source, "head_branch"@) is None {
                Some(src + " has no "@ + "head_branch"@)
            } else if str_member(update, "kustomization_path"@) is None {
                Some(upd + " has no "@ + "kustomization_path"@)
            } else if str_member(update, "image_name"@) is None {
                Some(upd + " has no "@ + "image_name"@)
            } else if str_member(update, "new_image"@) is None {
                Some(upd + " has no "@ + "new_image"@)
            } else if !spec_plan_source_ok(c, cs) {
                Some("GitOps delivery plan no longer matches the immutable ChangeSet target"@)
            } else {
                None
            }
        },
    }
}

pub fn required_json_string(object: &JsonValue, key: &str, context: &str) -> (r: Result<String, ApiError>)
    ensures
        match r {
            Ok(s) => str_member(object@, key@) == Some(s@),
            Err(e) => str_member(object@, key@) is None && e.kind == ErrorKind::Conflict
                && e.message@ == context@ + " has no "@ + key@,
        },
{
    match get_str(object, key) {
        Some(s) => Ok(s.to_owned()),
        None => {
            let message = String::from_str(context).concat(" has no ").concat(key);
            Err(ApiError::with_message(ErrorKind::Conflict, message))
        },
    }
}

fn object_member<'a>(v: &'a JsonValue, key: &str) -> (r: Option<&'a JsonValue>)
    ensures
        match r {
            Some(m) => member_object(v@, key@) == Some(m@),
            None => member_object(v@, key@) is None,
        },
{
    match v.get(key) {
        Some(m) => if m.is_object() {
            Some(m)
        } else {
            None
        },
        None => None,
    }
}

/// The source a delivery plan binds, provided it still matches the
/// immutable ChangeSet target.
pub fn gitops_delivery_plan_source(plan: &StoredArtifact, change_set: &StoredGitOpsChangeSet) -> (r:
    Result<GitOpsDeliveryPlanSource, ApiError>)
    ensures
        r is Ok <==> (content_view(*plan) matches Some(c) && spec_plan_source_ok(c, *change_set)),
        r matches Ok(s) ==> {
            &&& s.repository@ == change_set.gitops_repo@
            &&& s.base_ref@ == change_set.gitops_ref@
            &&& s.head_branch@ == change_set.head_branch@
            &&& s.kustomization_path@ == change_set.kustomization_path@
            &&& s.image_name@ == change_set.image_name@
            &&& s.image_ref@ == change_set.image_ref@
            &&& str_member(member_object(content_view(*plan)->0, "source"@)->0, "base_commit"@)
                == Some(s.base_commit@)
        },
        r matches Err(e) ==> e.kind == ErrorKind::Conflict && spec_plan_source_refusal(content_view(*plan), *change_set)
            == Some(e.message@),
{
    let content = match &plan.content_json {
        Some(c) => {
            if !c.is_object() {
                return Err(ApiError::conflict("GitOps delivery plan has no structured content"));
            }
            c
        },
        None => {
            return Err(ApiError::conflict("GitOps delivery plan has no structured content"));
        },
    };
    if !str_member_is(content, "operation", "branch_and_pull_request") {
        return Err(
            ApiError::conflict(
                "GitOps delivery plan does not describe a branch-and-pull-request operation",
            ),
        );
    }
    let source = match object_member(content, "source") {
        Some(s) => s,
        None => {
            return Err(ApiError::conflict("GitOps delivery plan has no source provenance"));
        },
    };
    let update = match object_member(content, "update") {
        Some(u) => u,
        None => {
            return Err(ApiError::conflict("GitOps delivery plan has no update operation"));
        },
    };
    let repository = required_json_string(source, "repository", "GitOps delivery plan source")?;
    let base_ref = required_json_string(source, "base_ref", "GitOps delivery plan source")?;
    let base_commit = required_json_string(source, "base_commit", "GitOps delivery plan source")?;
    let head_branch = required_json_string(source, "head_branch", "GitOps delivery plan source")?;
    let kustomization_path = required_json_string(
        update,
        "kustomization_path",
        "GitOps delivery plan update",
    )?;
    let image_name = required_json_string(update, "image_name", "GitOps delivery plan update")?;
    let image_ref = required_json_string(update, "new_image", "GitOps delivery plan update")?;
    if !str_eq(repository.as_str(), change_set.gitops_repo.as_str()) || !str_eq(
        base_ref.as_str(),
        change_set.gitops_ref.as_str(),
    ) || !str_eq(head_branch.as_str(), change_set.head_branch.as_str()) || !str_eq(
        kustomization_path.as_str(),
        change_set.kustomization_path.as_str(),
    ) || !str_eq(image_name.as_str(), change_set.image_name.as_str()) || !str_eq(
        image_ref.as_str(),
        change_set.image_ref.as_str(),
    ) || !is_git_sha(base_commit.as_str()) || !safe_relative_gitops_path(
        kustomization_path.as_str(),
    ) || !contains_str(image_ref.as_str(), "@sha256:") {
        return Err(
            ApiError::conflict("GitOps delivery plan no longer matches the immutable ChangeSet target"),
        );
    }
    Ok(
        GitOpsDeliveryPlanSource {
            repository,
            base_ref,
            base_commit,
            head_branch,
            kustomization_path,
            image_name,
            image_ref,
        },
    )
}

pub open spec fn plan_flags(arts: Seq<StoredArtifact>, cs: StoredGitOpsChangeSet) -> Seq<bool> {
    Seq::new(arts.len(), |i: int| spec_delivery_plan_matches(arts[i], cs))
}

pub open spec fn kind_flags(arts: Seq<StoredArtifact>, kind: Seq<char>, plan_id: Seq<char>) -> Seq<bool> {
    Seq::new(arts.len(), |i: int| spec_artifact_matches_plan(arts[i], kind, plan_id))
}

pub(crate) fn delivery_plan_flags(artifacts: &Vec<StoredArtifact>, cs: &StoredGitOpsChangeSet) -> (r: Vec<bool>)
    ensures
        r@ == plan_flags(artifacts@, *cs),
{
    let mut flags: Vec<bool> = Vec::new();
    let mut i: usize = 0;
    while i < artifacts.len()
        invariant
            i <= artifacts@.len(),
            flags@.len() == i,
            forall|j: int| 0 <= j < i ==> #[trigger] flags@[j] == spec_delivery_plan_matches(artifacts@[j], *cs),
        decreases artifacts@.len() - i,
    {
        flags.push(gitops_delivery_plan_matches_change_set(&artifacts[i], cs));
        i = i + 1;
    }
    proof {
        assert(flags@ =~= plan_flags(artifacts@, *cs));
    }
    flags
}

/// Which artifacts are evidence of `kind` for the plan `plan_id`.
pub fn plan_evidence_flags(artifacts: &Vec<StoredArtifact>, kind: &str, plan_id: &str) -> (r: Vec<bool>)
    ensures
        r@ == kind_flags(artifacts@, kind@, plan_id@),
{
    let mut flags: Vec<bool> = Vec::new();
    let mut i: usize = 0;
    while i < artifacts.len()
        invariant
            i <= artifacts@.len(),
            flags@.len() == i,
            forall|j: int| 0 <= j < i ==> #[trigger] flags@[j] == spec_artifact_matches_plan(artifacts@[j], kind@, plan_id@),
        decreases artifacts@.len() - i,
    {
        flags.push(gitops_delivery_artifact_matches_plan(&artifacts[i], kind, plan_id));
        i = i + 1;
    }
    proof {
        assert(flags@ =~= kind_flags(artifacts@, kind@, plan_id@));
    }
    flags
}

/// Bytes Git refuses in a branch name, or that the controller keeps out.
pub open spec fn is_forbidden_branch_byte(b: u8) -> bool {
    b == 32 || b == 126 || b == 94 || b == 58 || b == 63 || b == 42 || b == 91 || b == 92 || b == 10
}

/// A retry branch name the writer may push: at most 240 bytes, not starting
/// with `-`, without forbidden bytes and without `..`.
pub open spec fn spec_safe_retry_branch(b: Seq<u8>) -> bool {
    &&& b.len() <= 240
    &&& !(b.len() > 0 && b[0] == 45)
    &&& forall|i: int| 0 <= i < b.len() ==> !is_forbidden_branch_byte(#[trigger] b[i])
    &&& !spec_contains(b, seq![46u8, 46u8])
}

pub fn safe_retry_branch(branch: &str) -> (r: bool)
    ensures
        r == spec_safe_retry_branch(encode_utf8(branch@)),
{
    let b = branch.as_bytes();
    let n = b.len();
    if n > 240 || (n > 0 && b[0] == 45) {
        return false;
    }
    let mut i: usize = 0;
    while i < n
        invariant
            n == b@.len(),
            n <= 240,
            b@ == encode_utf8(branch@),
            i <= n,
            forall|j: int| 0 <= j < i ==> !is_forbidden_branch_byte(#[trigger] b@[j]),
        decreases n - i,
    {
        let c = b[i];
        if c == 32 || c == 126 || c == 94 || c == 58 || c == 63 || c == 42 || c == 91 || c == 92
            || c == 10 {
            proof {
                assert(is_forbidden_branch_byte(b@[i as int]));
            }
            return false;
        }
        i = i + 1;
    }
    proof {
        reveal_strlit("..");
        assert(encode_utf8(".."@) =~= seq![46u8, 46u8]) by {
            vstd::utf8::is_ascii_chars_encode_utf8(".."@);
        }
    }
    !contains_str(branch, "..")
}

/// The branch a re-proposed ChangeSet delivers from: a sibling of the
/// originally planned head branch named after the next revision.
pub open spec fn spec_retry_base_branch(cs: StoredGitOpsChangeSet) -> Seq<char> {
    match str_at(cs.gitops_change_set_json@, seq!["source_plan"@, "gitops"@, "head_branch"@]) {
        Some(b) => b,
        None => cs.head_branch@,
    }
}

pub open spec fn spec_retry_branch(cs: StoredGitOpsChangeSet) -> Seq<char> {
    spec_retry_base_branch(cs) + "-revision-"@ + spec_decimal_int(cs.revision + 1)
}

/// A delivery result that ended in failure.
pub open spec fn spec_result_failed(content: Option<Json>) -> bool {
    content matches Some(c) && (str_member(c, "status"@) == Some("failed"@) || str_member(
        c,
        "status"@,
    ) == Some("dispatch_failed"@))
}

/// What a re-proposal after a non-merged delivery acts on.
pub struct GitOpsReproposal {
    pub plan_index: usize,
    pub result_index: usize,
    pub observation_index: Option<usize>,
    /// The writer grant of the latest execution, to be revoked if still active.
    pub grant_id: Option<String>,
    /// Whether a closed, unmerged pull request was observed.
    pub external_mutation_observed: bool,
    pub next_revision: i64,
    pub next_head_branch: String,
}

pub open spec fn spec_latest_plan(arts: Seq<StoredArtifact>, cs: StoredGitOpsChangeSet) -> Option<int> {
    latest_of(arts, plan_flags(arts, cs))
}

pub open spec fn spec_latest_evidence(arts: Seq<StoredArtifact>, kind: Seq<char>, plan: int) -> Option<int> {
    latest_of(arts, kind_flags(arts, kind, arts[plan].id@))
}

pub open spec fn opt_content_at(arts: Seq<StoredArtifact>, i: Option<int>) -> Option<Json> {
    match i {
        Some(k) => content_view(arts[k]),
        None => None,
    }
}

/// A ChangeSet may be re-proposed when it is approved, its current plan has
/// a terminal result, that result failed or the pull request was closed
/// unmerged, no merge was observed, and the retry branch is safe.
pub open spec fn spec_reproposal_allowed(arts: Seq<StoredArtifact>, cs: StoredGitOpsChangeSet) -> bool {
    &&& cs.status@ == "approved"@
    &&& spec_latest_plan(arts, cs) matches Some(p) && {
        let result = spec_latest_evidence(arts, "gitops_delivery_result"@, p);
        let observation = spec_latest_evidence(arts, "gitops_delivery_pr_observation"@, p);
        &&& result is Some
        &&& (spec_result_failed(opt_content_at(arts, result)) || spec_observation_closed_unmerged(
            opt_content_at(arts, observation),
        ))
        &&& spec_latest_evidence(arts, "gitops_delivery_merge"@, p) is None
        &&& spec_safe_retry_branch(encode_utf8(spec_retry_branch(cs)))
    }
}

fn retry_branch(cs: &StoredGitOpsChangeSet) -> (r: String)
    requires
        cs.revision < i64::MAX,
    ensures
        r@ == spec_retry_branch(*cs),
{
    let base = match get_str_at(&cs.gitops_change_set_json, &["source_plan", "gitops", "head_branch"]) {
        Some(b) => b,
        None => cs.head_branch.as_str(),
    };
    proof {
        let p: Seq<&str> = seq!["source_plan", "gitops", "head_branch"];
        assert(path_view(p) =~= seq!["source_plan"@, "gitops"@, "head_branch"@]);
    }
    String::from_str(base).concat("-revision-").concat(decimal_i64(cs.revision + 1).as_str())
}

/// What a review of a ChangeSet for re-proposal finds, before the retry
/// branch is derived.
pub struct GitOpsReproposalReview {
    pub plan_index: usize,
    pub result_index: usize,
    pub observation_index: Option<usize>,
    /// The writer grant of the latest execution, to be revoked if still active.
    pub grant_id: Option<String>,
    /// Whether a closed, unmerged pull request was observed.
    pub external_mutation_observed: bool,
}

/// The refusal owed by the review of a ChangeSet for re-proposal, if any.
pub open spec fn spec_review_refusal(arts: Seq<StoredArtifact>, cs: StoredGitOpsChangeSet) -> Option<Seq<char>> {
    if cs.status@ != "approved"@ {
        Some("GitOps delivery retry review requires an approved GitOps ChangeSet"@)
    } else {
        match spec_latest_plan(arts, cs) {
            None => Some("failed GitOps delivery has no current plan"@),
            Some(p) => {
                let result = spec_latest_evidence(arts, "gitops_delivery_result"@, p);
                let observation = spec_latest_evidence(arts, "gitops_delivery_pr_observation"@, p);
                if result is None {
                    Some("GitOps delivery has no terminal result"@)
                } else if !(spec_result_failed(opt_content_at(arts, result)) || spec_observation_closed_unmerged(
                    opt_content_at(arts, observation),
                )) {
                    Some(
                        "GitOps ChangeSet can be re-proposed only after a failed bounded delivery or a closed, unmerged pull request"@,
                    )
                } else if spec_latest_evidence(arts, "gitops_delivery_merge"@, p) is Some {
                    Some("GitOps ChangeSet cannot be re-proposed after an observed merge"@)
                } else {
                    None
                }
            },
        }
    }
}

/// The refusal owed to a re-proposal of a ChangeSet, if any.
pub open spec fn spec_reproposal_refusal(arts: Seq<StoredArtifact>, cs: StoredGitOpsChangeSet) -> Option<Seq<char>> {
    match spec_review_refusal(arts, cs) {
        Some(m) => Some(m),
        None => if !spec_safe_retry_branch(encode_utf8(spec_retry_branch(cs))) {
            Some("GitOps ChangeSet cannot derive a safe revision-scoped retry branch"@)
        } else {
            None
        },
    }
}

/// The grant named by the latest execution of plan `p`, if it names one.
pub open spec fn spec_execution_grant(arts: Seq<StoredArtifact>, p: int) -> Option<Seq<char>> {
    match opt_content_at(arts, spec_latest_evidence(arts, "gitops_delivery_execution"@, p)) {
        Some(c) => str_member(c, "permission_grant_id"@),
        None => None,
    }
}

/// What a review that passed found: the current plan, its latest result
/// and observation, and the grant of its latest execution.
pub open spec fn spec_review_found(arts: Seq<StoredArtifact>, cs: StoredGitOpsChangeSet, x: GitOpsReproposalReview) -> bool {
    let p = spec_latest_plan(arts, cs)->0;
    &&& x.plan_index as int == p
    &&& opt_index(Some(x.result_index)) == spec_latest_evidence(arts, "gitops_delivery_result"@, p)
    &&& opt_index(x.observation_index) == spec_latest_evidence(arts, "gitops_delivery_pr_observation"@, p)
    &&& x.external_mutation_observed == spec_observation_closed_unmerged(
        opt_content_at(arts, opt_index(x.observation_index)),
    )
    &&& opt_text(x.grant_id) == spec_execution_grant(arts, p)
}

/// A ChangeSet passes re-proposal review only when it is approved, its
/// current plan has a terminal result, that result failed (or was never
/// dispatched) or its pull request was closed unmerged, and no merge of that
/// plan was observed; a re-proposal also needs its retry branch to be safe.
pub proof fn lemma_reproposal_needs_an_unmerged_failure(arts: Seq<StoredArtifact>, cs: StoredGitOpsChangeSet)
    ensures
        spec_review_refusal(arts, cs) is None ==> {
            &&& cs.status@ == "approved"@
            &&& spec_latest_plan(arts, cs) is Some
            &&& spec_latest_evidence(arts, "gitops_delivery_result"@, spec_latest_plan(arts, cs)->0) is Some
            &&& spec_latest_evidence(arts, "gitops_delivery_merge"@, spec_latest_plan(arts, cs)->0) is None
            &&& (spec_result_failed(
                opt_content_at(arts, spec_latest_evidence(arts, "gitops_delivery_result"@, spec_latest_plan(arts, cs)->0)),
            ) || spec_observation_closed_unmerged(
                opt_content_at(
                    arts,
                    spec_latest_evidence(arts, "gitops_delivery_pr_observation"@, spec_latest_plan(arts, cs)->0),
                ),
            ))
        },
        spec_reproposal_refusal(arts, cs) is None ==> spec_review_refusal(arts, cs) is None
            && spec_safe_retry_branch(encode_utf8(spec_retry_branch(cs))),
{
}

/// Review a ChangeSet for re-proposal: it must be approved, its current plan
/// must have a terminal result that failed or whose pull request was closed
/// unmerged, and no merge may have been observed. A review that passes
/// names the writer grant of the latest execution, which is revoked before
/// the retry branch is derived.
pub fn gitops_reproposal_review(current: &StoredGitOpsChangeSet, artifacts: &Vec<StoredArtifact>) -> (r:
    Result<GitOpsReproposalReview, ApiError>)
    ensures
        r is Ok <==> spec_review_refusal(artifacts@, *current) is None,
        r matches Ok(x) ==> spec_review_found(artifacts@, *current, x),
        r matches Err(e) ==> e.kind == ErrorKind::Conflict && spec_review_refusal(artifacts@, *current) == Some(e.message@),
{
    if !str_eq(current.status.as_str(), "approved") {
        return Err(
            ApiError::conflict("GitOps delivery retry review requires an approved GitOps ChangeSet"),
        );
    }
    let pflags = delivery_plan_flags(artifacts, current);
    let p = match latest_matching(artifacts, &pflags) {
        Some(p) => p,
        None => {
            return Err(ApiError::conflict("failed GitOps delivery has no current plan"));
        },
    };
    let plan_id = artifacts[p].id.as_str();
    let rflags = plan_evidence_flags(artifacts, "gitops_delivery_result", plan_id);
    let result = match latest_matching(artifacts, &rflags) {
        Some(k) => k,
        None => {
            return Err(ApiError::conflict("GitOps delivery has no terminal result"));
        },
    };
    let oflags = plan_evidence_flags(artifacts, "gitops_delivery_pr_observation", plan_id);
    let observation = latest_matching(artifacts, &oflags);
    let failed = match &artifacts[result].content_json {
        Some(c) => str_member_is(c, "status", "failed") || str_member_is(c, "status", "dispatch_failed"),
        None => false,
    };
    let closed_unmerged = match observation {
        Some(o) => gitops_observation_closed_unmerged(
            match &artifacts[o].content_json {
                Some(c) => Some(c),
                None => None,
            },
        ),
        None => false,
    };
    if !failed && !closed_unmerged {
        return Err(
            ApiError::conflict(
                "GitOps ChangeSet can be re-proposed only after a failed bounded delivery or a closed, unmerged pull request",
            ),
        );
    }
    let mflags = plan_evidence_flags(artifacts, "gitops_delivery_merge", plan_id);
    if latest_matching(artifacts, &mflags).is_some() {
        return Err(ApiError::conflict("GitOps ChangeSet cannot be re-proposed after an observed merge"));
    }
    let eflags = plan_evidence_flags(artifacts, "gitops_delivery_execution", plan_id);
    let grant_id = match latest_matching(artifacts, &eflags) {
        Some(e) => match &artifacts[e].content_json {
            Some(c) => match get_str(c, "permission_grant_id") {
                Some(g) => Some(g.to_owned()),
                None => None,
            },
            None => None,
        },
        None => None,
    };
    Ok(
        GitOpsReproposalReview {
            plan_index: p,
            result_index: result,
            observation_index: observation,
            grant_id,
            external_mutation_observed: closed_unmerged,
        },
    )
}

/// Decide a re-proposal of a ChangeSet whose bounded delivery failed or
/// whose pull request was closed without a merge: the review, then a
/// revision-scoped retry branch beside the failed one.
pub fn plan_gitops_reproposal(current: &StoredGitOpsChangeSet, artifacts: &Vec<StoredArtifact>) -> (r:
    Result<GitOpsReproposal, ApiError>)
    requires
        current.revision < i64::MAX,
    ensures
        r is Ok <==> spec_reproposal_allowed(artifacts@, *current),
        r is Ok <==> spec_reproposal_refusal(artifacts@, *current) is None,
        r matches Ok(x) ==> {
            &&& spec_review_found(
                artifacts@,
                *current,
                GitOpsReproposalReview {
                    plan_index: x.plan_index,
                    result_index: x.result_index,
                    observation_index: x.observation_index,
                    grant_id: x.grant_id,
                    external_mutation_observed: x.external_mutation_observed,
                },
            )
            &&& x.next_revision == current.revision + 1
            &&& x.next_head_branch@ == spec_retry_branch(*current)
        },
        r matches Err(e) ==> e.kind == ErrorKind::Conflict && spec_reproposal_refusal(artifacts@, *current) == Some(e.message@),
{
    let review = match gitops_reproposal_review(current, artifacts) {
        Ok(x) => x,
        Err(e) => return Err(e),
    };
    let next_revision = current.revision + 1;
    let next_head_branch = retry_branch(current);
    if !safe_retry_branch(next_head_branch.as_str()) {
        return Err(
            ApiError::conflict("GitOps ChangeSet cannot derive a safe revision-scoped retry branch"),
        );
    }
    Ok(
        GitOpsReproposal {
            plan_index: review.plan_index,
            result_index: review.result_index,
            observation_index: review.observation_index,
            grant_id: review.grant_id,
            external_mutation_observed: review.external_mutation_observed,
            next_revision,
            next_head_branch,
        },
    )
}

/// An approval gate as far as a preflight reads it.
pub struct ApprovalGateRef {
    pub id: String,
    pub status: String,
}

/// The outcome of a GitOps delivery preflight.
pub struct GitOpsDeliveryPreflight {
    pub status: String,
    pub approval_gate_ready: bool,
    pub authorization_ready: bool,
    pub dispatch_ready: bool,
    pub checks: Vec<ExecutionCheck>,
}

pub open spec fn spec_gate_ready(gate: Option<ApprovalGateRef>) -> bool {
    gate matches Some(g) && (g.status@ == "satisfied"@ || g.status@ == "waived"@)
}

pub open spec fn seq_contains_text(items: Seq<String>, t: Seq<char>) -> bool {
    exists|i: int| 0 <= i < items.len() && #[trigger] items[i]@ == t
}

pub open spec fn spec_dispatch_ready(writer_repos: Option<Vec<String>>, repo: Seq<char>) -> bool {
    writer_repos matches Some(rs) && seq_contains_text(rs@, repo)
}

pub open spec fn spec_base_commit_text(base_commit: Option<&str>) -> Seq<char> {
    match base_commit {
        Some(b) => b@,
        None => "missing"@,
    }
}

pub open spec fn opt_gate(g: Option<&ApprovalGateRef>) -> Option<ApprovalGateRef> {
    match g {
        Some(x) => Some(*x),
        None => None,
    }
}

pub open spec fn opt_repos(g: Option<&Vec<String>>) -> Option<Vec<String>> {
    match g {
        Some(x) => Some(*x),
        None => None,
    }
}

/// Whether `items` holds the text `t`.
pub fn contains_text(items: &Vec<String>, t: &str) -> (r: bool)
    ensures
        r == seq_contains_text(items@, t@),
{
    let mut i: usize = 0;
    while i < items.len()
        invariant
            i <= items@.len(),
            forall|j: int| 0 <= j < i ==> #[trigger] items@[j]@ != t@,
        decreases items@.len() - i,
    {
        if str_eq(items[i].as_str(), t) {
            return true;
        }
        i = i + 1;
    }
    false
}

/// Every check but the last (the writer executor's availability) passed.
pub open spec fn spec_prerequisites_ready(checks: Seq<ExecutionCheck>) -> bool {
    forall|i: int| 0 <= i < 6 ==> #[trigger] checks[i].passed
}

/// A delivery preflight is ready exactly when each of its six prerequisite
/// checks passed. The fifth is the approval gate;
/// the sixth is the delivery grant.
/// A failure of either leaves the preflight blocked,
/// and the writer executor's check (seventh) does not enter readiness.
pub proof fn lemma_ready_preflight_needs_gate_and_grant(checks: Seq<ExecutionCheck>)
    requires
        checks.len() == 7,
    ensures
        !checks[4].passed ==> !spec_prerequisites_ready(checks),
        !checks[5].passed ==> !spec_prerequisites_ready(checks),
        spec_prerequisites_ready(checks) <==> (checks[0].passed && checks[1].passed && checks[2].passed
            && checks[3].passed && checks[4].passed && checks[5].passed),
{
    if checks[0].passed && checks[1].passed && checks[2].passed && checks[3].passed && checks[4].passed
        && checks[5].passed {
        assert forall|i: int| 0 <= i < 6 implies #[trigger] checks[i].passed by {
            if i == 0 {} else if i == 1 {} else if i == 2 {} else if i == 3 {} else if i == 4 {} else {}
        }
    }
}

/// Evaluate the prerequisites of a GitOps delivery. The status is
/// `ready_for_writer` exactly when every check other than the writer
/// executor's availability passed.
pub fn gitops_delivery_preflight(
    change_set: &StoredGitOpsChangeSet,
    work_plan_status: &str,
    target_valid: bool,
    base_commit: Option<&str>,
    approval_gate: Option<&ApprovalGateRef>,
    grant_id: Option<&str>,
    subject: &str,
    writer_allowed_repos: Option<&Vec<String>>,
) -> (r: GitOpsDeliveryPreflight)
    ensures
        r.approval_gate_ready == spec_gate_ready(opt_gate(approval_gate)),
        r.authorization_ready == grant_id is Some,
        r.dispatch_ready == spec_dispatch_ready(opt_repos(writer_allowed_repos), change_set.gitops_repo@),
        r.checks@.len() == 7,
        check_view(r.checks@[0]) == (
            "gitops_change_set_approved"@,
            change_set.status@ == "approved"@,
            "GitOps ChangeSet status is "@ + change_set.status@,
        ),
        check_view(r.checks@[1]) == (
            "work_plan_approved"@,
            work_plan_status@ == "approved"@,
            "WorkPlan status is "@ + work_plan_status@,
        ),
        check_view(r.checks@[2]) == (
            "supported_gitops_target"@,
            target_valid,
            if target_valid {
                "GitOps target is "@ + change_set.gitops_repo@ + " at "@ + change_set.gitops_ref@
            } else {
                "GitOps ChangeSet no longer matches a supported dev or exact protected-production WorkItem target"@
            },
        ),
        check_view(r.checks@[3]) == (
            "immutable_gitops_base_revision"@,
            spec_is_git_sha(encode_utf8(spec_base_commit_text(base_commit))),
            "Observer resolved GitOps base commit "@ + spec_base_commit_text(base_commit),
        ),
        check_view(r.checks@[4]) == (
            "work_item_gitops_mutation_gate"@,
            spec_gate_ready(opt_gate(approval_gate)),
            match approval_gate {
                Some(g) => "GitOps mutation gate "@ + g.id@ + " is "@ + g.status@,
                None => "No scoped WorkItem gitops_mutation gate matches this delivery plan"@,
            },
        ),
        check_view(r.checks@[5]) == (
            "trusted_gitops_delivery_grant"@,
            grant_id is Some,
            match grant_id {
                Some(g) => "Active supervised-autonomy grant "@ + g@ + " matches GitOps writer "@ + subject@,
                None => "No active supervised-autonomy GitOps delivery grant matches writer "@ + subject@,
            },
        ),
        check_view(r.checks@[6]) == (
            "gitops_writer_executor_available"@,
            spec_dispatch_ready(opt_repos(writer_allowed_repos), change_set.gitops_repo@),
            match writer_allowed_repos {
                None => "No dedicated GitOps writer executor is configured; branch, commit, push, and pull-request creation remain unavailable"@,
                Some(_) => "Dedicated GitOps writer is configured but does not allow repository "@ + change_set.gitops_repo@,
            },
        ),
        r.status@ == if spec_prerequisites_ready(r.checks@) {
            "ready_for_writer"@
        } else {
            "blocked"@
        },
        r.status@ == "ready_for_writer"@ || r.status@ == "blocked"@,
        r.status@ == "ready_for_writer"@ <==> {
            &&& change_set.status@ == "approved"@
            &&& work_plan_status@ == "approved"@
            &&& target_valid
            &&& spec_is_git_sha(encode_utf8(spec_base_commit_text(base_commit)))
            &&& approval_gate matches Some(g) && (g.status@ == "satisfied"@ || g.status@ == "waived"@)
            &&& grant_id is Some
        },
        r.status@ == "ready_for_writer"@ ==> r.approval_gate_ready && r.authorization_ready,
{
    let approval_gate_ready = match approval_gate {
        Some(g) => str_eq(g.status.as_str(), "satisfied") || str_eq(g.status.as_str(), "waived"),
        None => false,
    };
    let authorization_ready = grant_id.is_some();
    let dispatch_ready = match writer_allowed_repos {
        Some(repos) => contains_text(repos, change_set.gitops_repo.as_str()),
        None => false,
    };
    let commit = match base_commit {
        Some(b) => b,
        None => "missing",
    };
    let mut checks: Vec<ExecutionCheck> = Vec::new();
    checks.push(
        execution_check(
            "gitops_change_set_approved",
            str_eq(change_set.status.as_str(), "approved"),
            String::from_str("GitOps ChangeSet status is ").concat(change_set.status.as_str()),
        ),
    );
    checks.push(
        execution_check(
            "work_plan_approved",
            str_eq(work_plan_status, "approved"),
            String::from_str("WorkPlan status is ").concat(work_plan_status),
        ),
    );
    let target_summary = if target_valid {
        String::from_str("GitOps target is ").concat(change_set.gitops_repo.as_str()).concat(
            " at ",
        ).concat(change_set.gitops_ref.as_str())
    } else {
        String::from_str(
            "GitOps ChangeSet no longer matches a supported dev or exact protected-production WorkItem target",
        )
    };
    checks.push(execution_check("supported_gitops_target", target_valid, target_summary));
    checks.push(
        execution_check(
            "immutable_gitops_base_revision",
            is_git_sha(commit),
            String::from_str("Observer resolved GitOps base commit ").concat(commit),
        ),
    );
    let gate_summary = match approval_gate {
        Some(g) => String::from_str("GitOps mutation gate ").concat(g.id.as_str()).concat(
            " is ",
        ).concat(g.status.as_str()),
        None => String::from_str(
            "No scoped WorkItem gitops_mutation gate matches this delivery plan",
        ),
    };
    checks.push(execution_check("work_item_gitops_mutation_gate", approval_gate_ready, gate_summary));
    let grant_summary = match grant_id {
        Some(g) => String::from_str("Active supervised-autonomy grant ").concat(g).concat(
            " matches GitOps writer ",
        ).concat(subject),
        None => String::from_str(
            "No active supervised-autonomy GitOps delivery grant matches writer ",
        ).concat(subject),
    };
    checks.push(execution_check("trusted_gitops_delivery_grant", authorization_ready, grant_summary));
    let writer_summary = match writer_allowed_repos {
        None => String::from_str(
            "No dedicated GitOps writer executor is configured; branch, commit, push, and pull-request creation remain unavailable",
        ),
        Some(_) => String::from_str(
            "Dedicated GitOps writer is configured but does not allow repository ",
        ).concat(change_set.gitops_repo.as_str()),
    };
    checks.push(execution_check("gitops_writer_executor_available", dispatch_ready, writer_summary));
    let mut ready = true;
    let mut i: usize = 0;
    while i < 6
        invariant
            checks@.len() == 7,
            i <= 6,
            ready == (forall|j: int| 0 <= j < i ==> #[trigger] checks@[j].passed),
        decreases 6 - i,
    {
        if !checks[i].passed {
            ready = false;
        }
        i = i + 1;
    }
    assert(ready == spec_prerequisites_ready(checks@));
    proof {
        lemma_ready_preflight_needs_gate_and_grant(checks@);
        reveal_strlit("ready_for_writer");
        reveal_strlit("blocked");
        assert(checks@[4].passed == spec_gate_ready(opt_gate(approval_gate)));
        assert(checks@[5].passed == grant_id is Some);
    }
    let status = if ready {
        String::from_str("ready_for_writer")
    } else {
        String::from_str("blocked")
    };
    GitOpsDeliveryPreflight {
        status,
        approval_gate_ready,
        authorization_ready,
        dispatch_ready,
        checks,
    }
}

pub open spec fn gate_id_of(g: Option<ApprovalGateRef>) -> Option<Seq<char>> {
    match g {
        Some(x) => Some(x.id@),
        None => None,
    }
}

pub open spec fn gate_status_of(g: Option<ApprovalGateRef>) -> Option<Seq<char>> {
    match g {
        Some(x) => Some(x.status@),
        None => None,
    }
}

/// A recorded preflight of this plan for this subject, grant and gate
/// state; an equal preflight is answered with it instead of a new record.
pub open spec fn spec_preflight_artifact_matches(
    a: StoredArtifact,
    plan_id: Seq<char>,
    subject: Seq<char>,
    grant_id: Option<Seq<char>>,
    gate: Option<ApprovalGateRef>,
) -> bool {
    &&& a.kind@ == "gitops_delivery_preflight"@
    &&& content_view(a) matches Some(c) && {
        &&& str_member(c, "gitops_delivery_plan_artifact_id"@) == Some(plan_id)
        &&& str_member(c, "subject"@) == Some(subject)
        &&& str_member(c, "permission_grant_id"@) == grant_id
        &&& str_member(c, "approval_gate_id"@) == gate_id_of(gate)
        &&& str_member(c, "approval_gate_status"@) == gate_status_of(gate)
    }
}

fn member_equals(c: &JsonValue, key: &str, expected: Option<&str>) -> (r: bool)
    ensures
        r == (str_member(c@, key@) == opt_str_view(expected)),
{
    match (get_str(c, key), expected) {
        (Some(a), Some(b)) => str_eq(a, b),
        (None, None) => true,
        _ => false,
    }
}

/// The first recorded preflight equal to the one being made, if any.
pub fn existing_delivery_preflight(
    artifacts: &Vec<StoredArtifact>,
    plan_id: &str,
    subject: &str,
    grant_id: Option<&str>,
    gate: Option<&ApprovalGateRef>,
) -> (r: Option<usize>)
    ensures
        match r {
            Some(i) => i < artifacts@.len() && spec_preflight_artifact_matches(
                artifacts@[i as int],
                plan_id@,
                subject@,
                opt_str_view(grant_id),
                opt_gate(gate),
            ) && forall|k: int| 0 <= k < i ==> !spec_preflight_artifact_matches(
                #[trigger] artifacts@[k],
                plan_id@,
                subject@,
                opt_str_view(grant_id),
                opt_gate(gate),
            ),
            None => forall|k: int| 0 <= k < artifacts@.len() ==> !spec_preflight_artifact_matches(
                #[trigger] artifacts@[k],
                plan_id@,
                subject@,
                opt_str_view(grant_id),
                opt_gate(gate),
            ),
        },
{
    let gate_id = match gate {
        Some(g) => Some(g.id.as_str()),
        None => None,
    };
    let gate_status = match gate {
        Some(g) => Some(g.status.as_str()),
        None => None,
    };
    assert(opt_str_view(gate_id) == gate_id_of(opt_gate(gate)));
    assert(opt_str_view(gate_status) == gate_status_of(opt_gate(gate)));
    let mut i: usize = 0;
    while i < artifacts.len()
        invariant
            i <= artifacts@.len(),
            opt_str_view(gate_id) == gate_id_of(opt_gate(gate)),
            opt_str_view(gate_status) == gate_status_of(opt_gate(gate)),
            forall|k: int| 0 <= k < i ==> !spec_preflight_artifact_matches(
                #[trigger] artifacts@[k],
                plan_id@,
                subject@,
                opt_str_view(grant_id),
                opt_gate(gate),
            ),
        decreases artifacts@.len() - i,
    {
        let a = &artifacts[i];
        let found = str_eq(a.kind.as_str(), "gitops_delivery_preflight") && match &a.content_json {
            Some(c) => str_member_is(c, "gitops_delivery_plan_artifact_id", plan_id) && str_member_is(c, "subject", subject)
                && member_equals(c, "permission_grant_id", grant_id) && member_equals(c, "approval_gate_id", gate_id)
                && member_equals(c, "approval_gate_status", gate_status),
            None => false,
        };
        if found {
            return Some(i);
        }
        i = i + 1;
    }
    None
}

/// What a preflight says of a writer configured for the repository.
pub open spec fn configured_writer_summary() -> Seq<char> {
    "Dedicated GitOps writer is configured for this exact repository; an explicit delivery execution request will still revalidate the"@
        + " gate and plan-scoped grant before it can create a branch and pull request"@
}

/// What the dispatch part of a preflight says of the writer.
pub open spec fn spec_preflight_dispatch(dispatch_ready: bool) -> Json {
    Json::Object(
        seq![
            ("state"@, Json::Str(if dispatch_ready { "configured"@ } else { "not_configured"@ })),
            ("summary"@, Json::Str(
                if dispatch_ready {
                    configured_writer_summary()
                } else {
                    "GitOps writer execution is unavailable until its separate identity and executor are configured"@
                },
            )),
        ],
    )
}

/// What a recorded GitOps delivery preflight holds. Members are in key
/// order.
pub open spec fn spec_preflight_content(
    cs: StoredGitOpsChangeSet,
    plan_id: Seq<char>,
    base_revision_id: Seq<char>,
    subject: Seq<char>,
    grant_id: Option<Seq<char>>,
    gate: Option<ApprovalGateRef>,
    p: GitOpsDeliveryPreflight,
    reason: Option<Seq<char>>,
) -> Json {
    Json::Object(
        seq![
            ("approval_gate_id"@, opt_json_text(gate_id_of(gate))),
            ("approval_gate_ready"@, Json::Bool(p.approval_gate_ready)),
            ("approval_gate_status"@, opt_json_text(gate_status_of(gate))),
            ("authorization_ready"@, Json::Bool(p.authorization_ready)),
            ("checks"@, spec_checks_json(p.checks@)),
            ("dispatch"@, spec_preflight_dispatch(p.dispatch_ready)),
            ("dispatch_ready"@, Json::Bool(p.dispatch_ready)),
            ("gitops_base_revision_artifact_id"@, Json::Str(base_revision_id)),
            ("gitops_change_set_id"@, Json::Str(cs.id@)),
            ("gitops_delivery_plan_artifact_id"@, Json::Str(plan_id)),
            ("permission_grant_id"@, opt_json_text(grant_id)),
            ("reason"@, opt_json_text(reason)),
            ("status"@, Json::Str(p.status@)),
            ("subject"@, Json::Str(subject)),
            ("work_item_id"@, Json::Str(cs.work_item_id@)),
            ("work_plan_id"@, Json::Str(cs.work_plan_id@)),
        ],
    )
}

fn gate_member_json(gate: Option<&ApprovalGateRef>, status: bool) -> (r: JsonValue)
    ensures
        r@ == opt_json_text(if status { gate_status_of(opt_gate(gate)) } else { gate_id_of(opt_gate(gate)) }),
{
    match gate {
        Some(g) => if status {
            json_str(g.status.as_str())
        } else {
            json_str(g.id.as_str())
        },
        None => JsonValue::Null,
    }
}

fn preflight_dispatch_json(dispatch_ready: bool) -> (r: JsonValue)
    ensures
        r@ == spec_preflight_dispatch(dispatch_ready),
{
    let mut es: Vec<(String, JsonValue)> = Vec::new();
    if dispatch_ready {
        obj_insert(&mut es, "state", json_str("configured"));
        obj_insert(
            &mut es,
            "summary",
            JsonValue::Str(
                String::from_str(
                    "Dedicated GitOps writer is configured for this exact repository; an explicit delivery execution request will still revalidate the",
                ).concat(" gate and plan-scoped grant before it can create a branch and pull request"),
            ),
        );
    } else {
        obj_insert(&mut es, "state", json_str("not_configured"));
        obj_insert(
            &mut es,
            "summary",
            json_str("GitOps writer execution is unavailable until its separate identity and executor are configured"),
        );
    }
    proof {
        lemma_object_view(es);
        assert(entries_view(es@) =~= spec_preflight_dispatch(dispatch_ready)->Object_0);
    }
    JsonValue::Object(es)
}

/// The record of a GitOps delivery preflight.
pub fn delivery_preflight_content(
    cs: &StoredGitOpsChangeSet,
    plan_id: &str,
    base_revision_id: &str,
    subject: &str,
    grant_id: Option<&str>,
    gate: Option<&ApprovalGateRef>,
    p: &GitOpsDeliveryPreflight,
    reason: Option<&str>,
) -> (r: JsonValue)
    ensures
        r@ == spec_preflight_content(
            *cs,
            plan_id@,
            base_revision_id@,
            subject@,
            opt_str_view(grant_id),
            opt_gate(gate),
            *p,
            opt_str_view(reason),
        ),
{
    let mut es: Vec<(String, JsonValue)> = Vec::new();
    obj_insert(&mut es, "approval_gate_id", gate_member_json(gate, false));
    obj_insert(&mut es, "approval_gate_ready", JsonValue::Bool(p.approval_gate_ready));
    obj_insert(&mut es, "approval_gate_status", gate_member_json(gate, true));
    obj_insert(&mut es, "authorization_ready", JsonValue::Bool(p.authorization_ready));
    obj_insert(&mut es, "checks", checks_json(&p.checks));
    obj_insert(&mut es, "dispatch", preflight_dispatch_json(p.dispatch_ready));
    obj_insert(&mut es, "dispatch_ready", JsonValue::Bool(p.dispatch_ready));
    obj_insert(&mut es, "gitops_base_revision_artifact_id", json_str(base_revision_id));
    obj_insert(&mut es, "gitops_change_set_id", json_str(cs.id.as_str()));
    obj_insert(&mut es, "gitops_delivery_plan_artifact_id", json_str(plan_id));
    obj_insert(&mut es, "permission_grant_id", json_opt_str(grant_id));
    obj_insert(&mut es, "reason", json_opt_str(reason));
    obj_insert(&mut es, "status", json_str(p.status.as_str()));
    obj_insert(&mut es, "subject", json_str(subject));
    obj_insert(&mut es, "work_item_id", json_str(cs.work_item_id.as_str()));
    obj_insert(&mut es, "work_plan_id", json_str(cs.work_plan_id.as_str()));
    proof {
        lemma_object_view(es);
        assert(entries_view(es@) =~= spec_preflight_content(
            *cs,
            plan_id@,
            base_revision_id@,
            subject@,
            opt_str_view(grant_id),
            opt_gate(gate),
            *p,
            opt_str_view(reason),
        )->Object_0);
    }
    JsonValue::Object(es)
}

/// The audit payload of a recorded GitOps delivery preflight. Members are
/// in key order.
pub open spec fn spec_preflight_audit(
    plan_id: Seq<char>,
    preflight_id: Seq<char>,
    subject: Seq<char>,
    grant_id: Option<Seq<char>>,
    gate: Option<ApprovalGateRef>,
    p: GitOpsDeliveryPreflight,
) -> Json {
    Json::Object(
        seq![
            ("approval_gate_id"@, opt_json_text(gate_id_of(gate))),
            ("approval_gate_ready"@, Json::Bool(p.approval_gate_ready)),
            ("authorization_ready"@, Json::Bool(p.authorization_ready)),
            ("dispatch_ready"@, Json::Bool(p.dispatch_ready)),
            ("gitops_delivery_plan_artifact_id"@, Json::Str(plan_id)),
            ("gitops_delivery_preflight_artifact_id"@, Json::Str(preflight_id)),
            ("permission_grant_id"@, opt_json_text(grant_id)),
            ("status"@, Json::Str(p.status@)),
            ("subject"@, Json::Str(subject)),
        ],
    )
}

pub fn delivery_preflight_audit(
    plan_id: &str,
    preflight_id: &str,
    subject: &str,
    grant_id: Option<&str>,
    gate: Option<&ApprovalGateRef>,
    p: &GitOpsDeliveryPreflight,
) -> (r: JsonValue)
    ensures
        r@ == spec_preflight_audit(plan_id@, preflight_id@, subject@, opt_str_view(grant_id), opt_gate(gate), *p),
{
    let mut es: Vec<(String, JsonValue)> = Vec::new();
    obj_insert(&mut es, "approval_gate_id", gate_member_json(gate, false));
    obj_insert(&mut es, "approval_gate_ready", JsonValue::Bool(p.approval_gate_ready));
    obj_insert(&mut es, "authorization_ready", JsonValue::Bool(p.authorization_ready));
    obj_insert(&mut es, "dispatch_ready", JsonValue::Bool(p.dispatch_ready));
    obj_insert(&mut es, "gitops_delivery_plan_artifact_id", json_str(plan_id));
    obj_insert(&mut es, "gitops_delivery_preflight_artifact_id", json_str(preflight_id));
    obj_insert(&mut es, "permission_grant_id", json_opt_str(grant_id));
    obj_insert(&mut es, "status", json_str(p.status.as_str()));
    obj_insert(&mut es, "subject", json_str(subject));
    proof {
        lemma_object_view(es);
        assert(entries_view(es@) =~= spec_preflight_audit(
            plan_id@,
            preflight_id@,
            subject@,
            opt_str_view(grant_id),
            opt_gate(gate),
            *p,
        )->Object_0);
    }
    JsonValue::Object(es)
}

} // verus!

