//! Permission grants that authorize the Argo sync runner and the GitOps
//! writer: a grant matches only when its whole scope names exactly the work
//! it is used for.
use vstd::prelude::*;
use vstd::utf8::encode_utf8;
use crate::error::{ApiError, ErrorKind};
use crate::gitops::{StoredGitOpsChangeSet, StoredWorkItem};
use crate::gitops_delivery::{contains_text, seq_contains_text};
use crate::json::{get_str, get_str_at, path_view, str_at, str_member, Json, JsonValue};
use crate::text::{opt_text, str_eq, texts_view};
use crate::validation::{is_git_sha, spec_is_git_sha, spec_is_sha256_checksum};

verus! {

broadcast use vstd::std_specs::vec::group_vec_axioms;

/// The kinds of capability a grant can cover.
#[derive(Clone, Copy, Debug, PartialEq, Eq, Structural)]
pub enum CapabilityKind {
    ArgoSync,
    Git,
    Other,
}

/// The scope of a permission grant.
pub struct GrantScope {
    pub environment: Option<String>,
    pub capability_kinds: Vec<CapabilityKind>,
    pub actions: Vec<String>,
    /// Whether the grant's maximum risk reaches at least high.
    pub max_risk_at_least_high: bool,
    pub namespaces: Vec<String>,
    pub work_item_ids: Vec<String>,
    pub work_plan_ids: Vec<String>,
    pub change_set_ids: Vec<String>,
    pub pipeline_intent_ids: Vec<String>,
    pub deployment_intent_ids: Vec<String>,
    pub argo_applications: Vec<String>,
    pub pipeline_contract_ids: Vec<String>,
    pub deployment_contract_ids: Vec<String>,
    pub source_merge_shas: Vec<String>,
    pub gitops_merge_shas: Vec<String>,
    pub image_digests: Vec<String>,
    pub repos: Vec<String>,
    pub branches: Vec<String>,
    pub gitops_change_set_ids: Vec<String>,
    pub gitops_delivery_plan_artifact_ids: Vec<String>,
    pub production_impacting: Option<bool>,
}

/// An active permission grant.
pub struct PermissionGrant {
    pub id: String,
    pub subject: String,
    /// Whether its policy mode is supervised autonomy.
    pub supervised_autonomy: bool,
    /// Whether it has not expired.
    pub unexpired: bool,
    pub scope: GrantScope,
}

/// The list is exactly the given texts.
pub open spec fn texts_are(v: Seq<String>, expected: Seq<Seq<char>>) -> bool {
    texts_view(v) == expected
}

pub open spec fn opt_list(o: Option<Seq<char>>) -> Seq<Seq<char>> {
    match o {
        Some(t) => seq![t],
        None => Seq::empty(),
    }
}

fn texts_are_exec(v: &Vec<String>, expected: &Vec<&str>) -> (r: bool)
    ensures
        r == texts_are(v@, expected@.map_values(|s: &str| s@)),
{
    let ghost ev = expected@.map_values(|s: &str| s@);
    if v.len() != expected.len() {
        proof {
            assert(texts_view(v@).len() != ev.len());
        }
        return false;
    }
    let mut i: usize = 0;
    while i < v.len()
        invariant
            ev == expected@.map_values(|s: &str| s@),
            v@.len() == expected@.len(),
            i <= v@.len(),
            forall|k: int| 0 <= k < i ==> v@[k]@ == expected@[k]@,
        decreases v@.len() - i,
    {
        if !str_eq(v[i].as_str(), expected[i]) {
            proof {
                assert(texts_view(v@)[i as int] != ev[i as int]);
            }
            return false;
        }
        i = i + 1;
    }
    proof {
        assert(texts_view(v@) =~= ev);
    }
    true
}

/// The production provenance a production-impacting deployment grant must
/// name: the source merge, the GitOps merge and the image digest.
pub struct ProductionBinding {
    pub source_merge_sha: String,
    pub gitops_merge_sha: String,
    pub image_digest: String,
}

/// The refusal owed when a piece of production provenance is missing: the
/// wording differs between authorizing a deployment and matching a grant.
pub open spec fn binding_message(authorizing: bool, which: int) -> Seq<char> {
    if authorizing {
        if which == 0 {
            "production deployment authorization requires immutable source merge provenance"@
        } else if which == 1 {
            "production deployment authorization requires a verified build image digest"@
        } else if which == 2 {
            "production deployment authorization requires immutable GitOps merge provenance"@
        } else {
            "GitOps merge provenance is malformed"@
        }
    } else {
        if which == 0 {
            "source merge provenance is unavailable"@
        } else if which == 1 {
            "build image digest provenance is unavailable"@
        } else if which == 2 {
            "GitOps merge provenance is unavailable"@
        } else {
            "GitOps merge provenance is malformed"@
        }
    }
}

/// The provenance of a production deployment, from its pipeline intent and
/// its observed GitOps merge, or the refusal owed.
pub open spec fn spec_production_binding(intent: Json, merge: Option<Json>, authorizing: bool) -> Result<(Seq<char>, Seq<char>, Seq<char>), Seq<char>> {
    let source = str_at(intent, seq!["source_provenance"@, "merge_commit_sha"@]);
    let digest = str_at(intent, seq!["build_output"@, "image_digest"@]);
    if !(source matches Some(s) && spec_is_git_sha(encode_utf8(s))) {
        Err(binding_message(authorizing, 0))
    } else if !(digest matches Some(d) && spec_is_sha256_checksum(encode_utf8(d))) {
        Err(binding_message(authorizing, 1))
    } else {
        match merge {
            None => Err(binding_message(authorizing, 2)),
            Some(m) => match str_member(m, "merge_commit_sha"@) {
                Some(g) => if spec_is_git_sha(encode_utf8(g)) {
                    Ok((source->0, g, digest->0))
                } else {
                    Err(binding_message(authorizing, 3))
                },
                None => Err(binding_message(authorizing, 3)),
            },
        }
    }
}

fn binding_error(authorizing: bool, which: u8) -> (e: ApiError)
    requires
        which <= 3,
    ensures
        e.kind == ErrorKind::Conflict && e.message@ == binding_message(authorizing, which as int),
{
    if authorizing {
        if which == 0 {
            ApiError::conflict("production deployment authorization requires immutable source merge provenance")
        } else if which == 1 {
            ApiError::conflict("production deployment authorization requires a verified build image digest")
        } else if which == 2 {
            ApiError::conflict("production deployment authorization requires immutable GitOps merge provenance")
        } else {
            ApiError::conflict("GitOps merge provenance is malformed")
        }
    } else {
        if which == 0 {
            ApiError::conflict("source merge provenance is unavailable")
        } else if which == 1 {
            ApiError::conflict("build image digest provenance is unavailable")
        } else if which == 2 {
            ApiError::conflict("GitOps merge provenance is unavailable")
        } else {
            ApiError::conflict("GitOps merge provenance is malformed")
        }
    }
}

fn is_digest(value: &str) -> (r: bool)
    ensures
        r == spec_is_sha256_checksum(encode_utf8(value@)),
{
    crate::validation::validate_sha256(value).is_ok()
}

/// The production provenance a deployment grant is (or must be) bound to.
pub fn production_binding(intent_json: &JsonValue, merge_content: Option<&JsonValue>, authorizing: bool) -> (r: Result<ProductionBinding, ApiError>)
    ensures
        match r {
            Ok(b) => spec_production_binding(intent_json@, crate::json::opt_json_view(merge_content), authorizing)
                == Ok::<(Seq<char>, Seq<char>, Seq<char>), Seq<char>>((b.source_merge_sha@, b.gitops_merge_sha@, b.image_digest@)),
            Err(e) => e.kind == ErrorKind::Conflict && spec_production_binding(intent_json@, crate::json::opt_json_view(merge_content), authorizing)
                == Err::<(Seq<char>, Seq<char>, Seq<char>), Seq<char>>(e.message@),
        },
{
    let sp = ["source_provenance", "merge_commit_sha"];
    let dp = ["build_output", "image_digest"];
    proof {
        assert(path_view(sp@) =~= seq!["source_provenance"@, "merge_commit_sha"@]);
        assert(path_view(dp@) =~= seq!["build_output"@, "image_digest"@]);
    }
    let source = match get_str_at(intent_json, &sp) {
        Some(s) => if is_git_sha(s) {
            s
        } else {
            return Err(binding_error(authorizing, 0));
        },
        None => return Err(binding_error(authorizing, 0)),
    };
    let digest = match get_str_at(intent_json, &dp) {
        Some(d) => if is_digest(d) {
            d
        } else {
            return Err(binding_error(authorizing, 1));
        },
        None => return Err(binding_error(authorizing, 1)),
    };
    let merge = match merge_content {
        Some(m) => m,
        None => return Err(binding_error(authorizing, 2)),
    };
    let gitops = match get_str(merge, "merge_commit_sha") {
        Some(g) => if is_git_sha(g) {
            g
        } else {
            return Err(binding_error(authorizing, 3));
        },
        None => return Err(binding_error(authorizing, 3)),
    };
    Ok(ProductionBinding {
        source_merge_sha: source.to_owned(),
        gitops_merge_sha: gitops.to_owned(),
        image_digest: digest.to_owned(),
    })
}

/// What a deployment grant must be checked against.
pub struct DeploymentGrantTarget {
    pub runner_subject: String,
    pub environment: String,
    pub namespace: String,
    pub application: String,
    pub work_plan_id: String,
    pub change_set_id: String,
    pub pipeline_intent_id: String,
    pub deployment_intent_id: String,
    pub work_item_id: String,
    pub production_impacting: bool,
    pub pipeline_contract_id: Option<String>,
    pub deployment_contract_id: Option<String>,
}

/// The grant authorizes the Argo runner to sync exactly this deployment.
pub open spec fn spec_deployment_grant_matches(g: PermissionGrant, t: DeploymentGrantTarget, binding: Option<ProductionBinding>) -> bool {
    let s = g.scope;
    &&& g.unexpired
    &&& g.subject@ == t.runner_subject@
    &&& opt_text(s.environment) == Some(t.environment@)
    &&& g.supervised_autonomy
    &&& s.capability_kinds@.contains(CapabilityKind::ArgoSync)
    &&& seq_contains_text(s.actions@, "argocd_sync"@)
    &&& s.max_risk_at_least_high
    &&& seq_contains_text(s.namespaces@, t.namespace@)
    &&& seq_contains_text(s.work_plan_ids@, t.work_plan_id@)
    &&& seq_contains_text(s.change_set_ids@, t.change_set_id@)
    &&& seq_contains_text(s.pipeline_intent_ids@, t.pipeline_intent_id@)
    &&& seq_contains_text(s.deployment_intent_ids@, t.deployment_intent_id@)
    &&& seq_contains_text(s.argo_applications@, t.application@)
    &&& s.production_impacting == Some(t.production_impacting)
    &&& match binding {
        Some(b) => {
            &&& texts_are(s.work_item_ids@, seq![t.work_item_id@])
            &&& texts_are(s.pipeline_contract_ids@, opt_list(opt_text(t.pipeline_contract_id)))
            &&& texts_are(s.deployment_contract_ids@, opt_list(opt_text(t.deployment_contract_id)))
            &&& texts_are(s.source_merge_shas@, seq![b.source_merge_sha@])
            &&& texts_are(s.gitops_merge_shas@, seq![b.gitops_merge_sha@])
            &&& texts_are(s.image_digests@, seq![b.image_digest@])
        },
        None => true,
    }
}

/// A grant that authorizes an Argo sync names the very deployment it
/// authorizes: it is unexpired, supervised, held by the runner, and its
/// scope lists this DeploymentIntent, this Argo application, this
/// namespace, this PipelineIntent, ChangeSet and WorkPlan, and the
/// `argocd_sync` action. A grant scoped to another DeploymentIntent (or
/// application) never authorizes this one.
pub proof fn lemma_deployment_grant_names_the_deployment(
    g: PermissionGrant,
    t: DeploymentGrantTarget,
    binding: Option<ProductionBinding>,
)
    ensures
        spec_deployment_grant_matches(g, t, binding) ==> {
            &&& g.unexpired && g.supervised_autonomy && g.subject@ == t.runner_subject@
            &&& exists|i: int| 0 <= i < g.scope.deployment_intent_ids@.len()
                && #[trigger] g.scope.deployment_intent_ids@[i]@ == t.deployment_intent_id@
            &&& exists|i: int| 0 <= i < g.scope.argo_applications@.len()
                && #[trigger] g.scope.argo_applications@[i]@ == t.application@
            &&& exists|i: int| 0 <= i < g.scope.namespaces@.len() && #[trigger] g.scope.namespaces@[i]@ == t.namespace@
            &&& exists|i: int| 0 <= i < g.scope.pipeline_intent_ids@.len()
                && #[trigger] g.scope.pipeline_intent_ids@[i]@ == t.pipeline_intent_id@
            &&& exists|i: int| 0 <= i < g.scope.change_set_ids@.len() && #[trigger] g.scope.change_set_ids@[i]@ == t.change_set_id@
            &&& exists|i: int| 0 <= i < g.scope.work_plan_ids@.len() && #[trigger] g.scope.work_plan_ids@[i]@ == t.work_plan_id@
            &&& exists|i: int| 0 <= i < g.scope.actions@.len() && #[trigger] g.scope.actions@[i]@ == "argocd_sync"@
        },
        (forall|i: int| 0 <= i < g.scope.deployment_intent_ids@.len() ==> #[trigger] g.scope.deployment_intent_ids@[i]@
            != t.deployment_intent_id@) ==> !spec_deployment_grant_matches(g, t, binding),
{
}

/// A grant that authorizes a GitOps writer delivery is unexpired, supervised,
/// held by the writer, and scoped to exactly this delivery plan, this
/// ChangeSet, its repository and head branch, and its WorkPlan; the WorkItem
/// still targets the ChangeSet's repository and ref.
pub proof fn lemma_delivery_grant_names_the_delivery(
    g: PermissionGrant,
    t: DeliveryGrantTarget,
    cs: StoredGitOpsChangeSet,
    wi: StoredWorkItem,
)
    ensures
        spec_delivery_grant_matches(g, t, cs, wi) ==> {
            &&& g.unexpired && g.supervised_autonomy && g.subject@ == t.subject@
            &&& g.scope.gitops_delivery_plan_artifact_ids@.len() == 1
            &&& g.scope.gitops_delivery_plan_artifact_ids@[0]@ == t.plan_artifact_id@
            &&& g.scope.gitops_change_set_ids@.len() == 1 && g.scope.gitops_change_set_ids@[0]@ == cs.id@
            &&& g.scope.repos@.len() == 1 && g.scope.repos@[0]@ == cs.gitops_repo@
            &&& g.scope.branches@.len() == 1 && g.scope.branches@[0]@ == cs.head_branch@
            &&& g.scope.work_plan_ids@.len() == 1 && g.scope.work_plan_ids@[0]@ == cs.work_plan_id@
            &&& wi.gitops_repo is Some && wi.gitops_repo->0@ == cs.gitops_repo@
            &&& wi.gitops_ref is Some && wi.gitops_ref->0@ == cs.gitops_ref@
        },
{
    if spec_delivery_grant_matches(g, t, cs, wi) {
        let s = g.scope;
        lemma_single_text(s.gitops_delivery_plan_artifact_ids@, t.plan_artifact_id@);
        lemma_single_text(s.gitops_change_set_ids@, cs.id@);
        lemma_single_text(s.repos@, cs.gitops_repo@);
        lemma_single_text(s.branches@, cs.head_branch@);
        lemma_single_text(s.work_plan_ids@, cs.work_plan_id@);
    }
}

proof fn lemma_single_text(v: Seq<String>, x: Seq<char>)
    requires
        texts_are(v, seq![x]),
    ensures
        v.len() == 1 && v[0]@ == x,
{
    assert(texts_view(v).len() == 1);
    assert(texts_view(v)[0] == seq![x][0]);
}

fn has_kind(kinds: &Vec<CapabilityKind>, k: CapabilityKind) -> (r: bool)
    ensures
        r == kinds@.contains(k),
{
    let mut i: usize = 0;
    while i < kinds.len()
        invariant
            i <= kinds@.len(),
            forall|j: int| 0 <= j < i ==> kinds@[j] != k,
        decreases kinds@.len() - i,
    {
        if kinds[i] == k {
            proof {
                assert(kinds@[i as int] == k);
            }
            return true;
        }
        i = i + 1;
    }
    false
}

fn opt_list_exec(o: &Option<String>) -> (r: Vec<&str>)
    ensures
        r@.map_values(|s: &str| s@) == opt_list(opt_text(*o)),
{
    let mut v: Vec<&str> = Vec::new();
    if let Some(t) = o {
        v.push(t.as_str());
    }
    proof {
        assert(v@.map_values(|s: &str| s@) =~= opt_list(opt_text(*o)));
    }
    v
}

fn one(t: &str) -> (r: Vec<&str>)
    ensures
        r@.map_values(|s: &str| s@) == seq![t@],
{
    let mut v: Vec<&str> = Vec::new();
    v.push(t);
    proof {
        assert(v@.map_values(|s: &str| s@) =~= seq![t@]);
    }
    v
}

fn binding_matches(s: &GrantScope, t: &DeploymentGrantTarget, b: &ProductionBinding) -> (r: bool)
    ensures
        r == ({
            &&& texts_are(s.work_item_ids@, seq![t.work_item_id@])
            &&& texts_are(s.pipeline_contract_ids@, opt_list(opt_text(t.pipeline_contract_id)))
            &&& texts_are(s.deployment_contract_ids@, opt_list(opt_text(t.deployment_contract_id)))
            &&& texts_are(s.source_merge_shas@, seq![b.source_merge_sha@])
            &&& texts_are(s.gitops_merge_shas@, seq![b.gitops_merge_sha@])
            &&& texts_are(s.image_digests@, seq![b.image_digest@])
        }),
{
    texts_are_exec(&s.work_item_ids, &one(t.work_item_id.as_str()))
        && texts_are_exec(&s.pipeline_contract_ids, &opt_list_exec(&t.pipeline_contract_id))
        && texts_are_exec(&s.deployment_contract_ids, &opt_list_exec(&t.deployment_contract_id))
        && texts_are_exec(&s.source_merge_shas, &one(b.source_merge_sha.as_str()))
        && texts_are_exec(&s.gitops_merge_shas, &one(b.gitops_merge_sha.as_str()))
        && texts_are_exec(&s.image_digests, &one(b.image_digest.as_str()))
}

/// Whether a grant authorizes the Argo runner to sync exactly this
/// deployment (bound to its production provenance when there is one).
pub fn deployment_grant_matches(g: &PermissionGrant, t: &DeploymentGrantTarget, binding: Option<&ProductionBinding>) -> (r: bool)
    ensures
        r == spec_deployment_grant_matches(*g, *t, match binding {
            Some(b) => Some(*b),
            None => None,
        }),
        r ==> {
            &&& g.unexpired && g.supervised_autonomy && g.subject@ == t.runner_subject@
            &&& exists|i: int| 0 <= i < g.scope.deployment_intent_ids@.len()
                && #[trigger] g.scope.deployment_intent_ids@[i]@ == t.deployment_intent_id@
            &&& exists|i: int| 0 <= i < g.scope.argo_applications@.len()
                && #[trigger] g.scope.argo_applications@[i]@ == t.application@
            &&& exists|i: int| 0 <= i < g.scope.namespaces@.len() && #[trigger] g.scope.namespaces@[i]@ == t.namespace@
        },
{
    proof {
        lemma_deployment_grant_names_the_deployment(*g, *t, match binding {
            Some(b) => Some(*b),
            None => None,
        });
    }
    let s = &g.scope;
    let env_ok = match &s.environment {
        Some(e) => str_eq(e.as_str(), t.environment.as_str()),
        None => false,
    };
    let bound = match binding {
        Some(b) => binding_matches(s, t, b),
        None => true,
    };
    g.unexpired && str_eq(g.subject.as_str(), t.runner_subject.as_str()) && env_ok && g.supervised_autonomy
        && has_kind(&s.capability_kinds, CapabilityKind::ArgoSync) && contains_text(&s.actions, "argocd_sync")
        && s.max_risk_at_least_high && contains_text(&s.namespaces, t.namespace.as_str())
        && contains_text(&s.work_plan_ids, t.work_plan_id.as_str()) && contains_text(&s.change_set_ids, t.change_set_id.as_str())
        && contains_text(&s.pipeline_intent_ids, t.pipeline_intent_id.as_str())
        && contains_text(&s.deployment_intent_ids, t.deployment_intent_id.as_str())
        && contains_text(&s.argo_applications, t.application.as_str()) && s.production_impacting == Some(
        t.production_impacting,
    ) && bound
}

/// What a GitOps writer grant must be checked against.
pub struct DeliveryGrantTarget {
    pub subject: String,
    pub plan_artifact_id: String,
    /// The writer actions a delivery grant must list, each exactly once.
    pub delivery_actions: Vec<String>,
}

/// The grant authorizes the GitOps writer to deliver exactly this ChangeSet
/// plan, and the WorkItem still targets the ChangeSet's repository and ref.
pub open spec fn spec_delivery_grant_matches(g: PermissionGrant, t: DeliveryGrantTarget, cs: StoredGitOpsChangeSet, wi: StoredWorkItem) -> bool {
    let s = g.scope;
    &&& g.unexpired
    &&& g.subject@ == t.subject@
    &&& g.supervised_autonomy
    &&& opt_text(s.environment) == Some(wi.target_environment@)
    &&& s.capability_kinds@ == seq![CapabilityKind::Git]
    &&& s.actions@.len() == t.delivery_actions@.len()
    &&& forall|i: int| 0 <= i < t.delivery_actions@.len() ==> seq_contains_text(s.actions@, #[trigger] t.delivery_actions@[i]@)
    &&& s.max_risk_at_least_high
    &&& texts_are(s.repos@, seq![cs.gitops_repo@])
    &&& texts_are(s.branches@, seq![cs.head_branch@])
    &&& texts_are(s.work_plan_ids@, seq![cs.work_plan_id@])
    &&& texts_are(s.gitops_change_set_ids@, seq![cs.id@])
    &&& texts_are(s.gitops_delivery_plan_artifact_ids@, seq![t.plan_artifact_id@])
    &&& s.production_impacting == Some(wi.production_impacting)
    &&& opt_text(wi.gitops_repo) == Some(cs.gitops_repo@)
    &&& opt_text(wi.gitops_ref) == Some(cs.gitops_ref@)
}

fn lists_all(actions: &Vec<String>, required: &Vec<String>) -> (r: bool)
    ensures
        r == forall|i: int| 0 <= i < required@.len() ==> seq_contains_text(actions@, #[trigger] required@[i]@),
{
    let mut i: usize = 0;
    while i < required.len()
        invariant
            i <= required@.len(),
            forall|k: int| 0 <= k < i ==> seq_contains_text(actions@, #[trigger] required@[k]@),
        decreases required@.len() - i,
    {
        if !contains_text(actions, required[i].as_str()) {
            return false;
        }
        i = i + 1;
    }
    true
}

fn only_git(kinds: &Vec<CapabilityKind>) -> (r: bool)
    ensures
        r == (kinds@ == seq![CapabilityKind::Git]),
{
    if kinds.len() == 1 && kinds[0] == CapabilityKind::Git {
        proof {
            assert(kinds@ =~= seq![CapabilityKind::Git]);
        }
        true
    } else {
        false
    }
}

/// Whether a grant authorizes the GitOps writer for exactly this delivery.
pub fn delivery_grant_matches(g: &PermissionGrant, t: &DeliveryGrantTarget, change_set: &StoredGitOpsChangeSet, work_item: &StoredWorkItem) -> (r: bool)
    ensures
        r == spec_delivery_grant_matches(*g, *t, *change_set, *work_item),
        r ==> {
            &&& g.unexpired && g.supervised_autonomy && g.subject@ == t.subject@
            &&& g.scope.gitops_delivery_plan_artifact_ids@.len() == 1
            &&& g.scope.gitops_delivery_plan_artifact_ids@[0]@ == t.plan_artifact_id@
            &&& g.scope.gitops_change_set_ids@.len() == 1 && g.scope.gitops_change_set_ids@[0]@ == change_set.id@
        },
{
    proof {
        lemma_delivery_grant_names_the_delivery(*g, *t, *change_set, *work_item);
    }
    let s = &g.scope;
    let env_ok = match &s.environment {
        Some(e) => str_eq(e.as_str(), work_item.target_environment.as_str()),
        None => false,
    };
    let repo_ok = match &work_item.gitops_repo {
        Some(r) => str_eq(r.as_str(), change_set.gitops_repo.as_str()),
        None => false,
    };
    let ref_ok = match &work_item.gitops_ref {
        Some(r) => str_eq(r.as_str(), change_set.gitops_ref.as_str()),
        None => false,
    };
    g.unexpired && str_eq(g.subject.as_str(), t.subject.as_str()) && g.supervised_autonomy && env_ok
        && only_git(&s.capability_kinds) && s.actions.len() == t.delivery_actions.len() && lists_all(
        &s.actions,
        &t.delivery_actions,
    ) && s.max_risk_at_least_high && texts_are_exec(&s.repos, &one(change_set.gitops_repo.as_str()))
        && texts_are_exec(&s.branches, &one(change_set.head_branch.as_str())) && texts_are_exec(
        &s.work_plan_ids,
        &one(change_set.work_plan_id.as_str()),
    ) && texts_are_exec(&s.gitops_change_set_ids, &one(change_set.id.as_str())) && texts_are_exec(
        &s.gitops_delivery_plan_artifact_ids,
        &one(t.plan_artifact_id.as_str()),
    ) && s.production_impacting == Some(work_item.production_impacting) && repo_ok && ref_ok
}

/// The first grant that authorizes this deployment.
pub fn first_deployment_grant(grants: &Vec<PermissionGrant>, t: &DeploymentGrantTarget, binding: Option<&ProductionBinding>) -> (r: Option<usize>)
    ensures
        match r {
            Some(i) => i < grants@.len() && spec_deployment_grant_matches(grants@[i as int], *t, match binding {
                Some(b) => Some(*b),
                None => None,
            })
                && forall|j: int| 0 <= j < i ==> !spec_deployment_grant_matches(#[trigger] grants@[j], *t, match binding {
                Some(b) => Some(*b),
                None => None,
            }),
            None => forall|j: int| 0 <= j < grants@.len() ==> !spec_deployment_grant_matches(#[trigger] grants@[j], *t, match binding {
                Some(b) => Some(*b),
                None => None,
            }),
        },
{
    let mut i: usize = 0;
    while i < grants.len()
        invariant
            i <= grants@.len(),
            forall|j: int| 0 <= j < i ==> !spec_deployment_grant_matches(#[trigger] grants@[j], *t, match binding {
                Some(b) => Some(*b),
                None => None,
            }),
        decreases grants@.len() - i,
    {
        if deployment_grant_matches(&grants[i], t, binding) {
            return Some(i);
        }
        i = i + 1;
    }
    None
}

/// The first grant that authorizes this delivery.
pub fn first_delivery_grant(grants: &Vec<PermissionGrant>, t: &DeliveryGrantTarget, change_set: &StoredGitOpsChangeSet, work_item: &StoredWorkItem) -> (r: Option<usize>)
    ensures
        match r {
            Some(i) => i < grants@.len() && spec_delivery_grant_matches(grants@[i as int], *t, *change_set, *work_item)
                && forall|j: int| 0 <= j < i ==> !spec_delivery_grant_matches(#[trigger] grants@[j], *t, *change_set, *work_item),
            None => forall|j: int| 0 <= j < grants@.len() ==> !spec_delivery_grant_matches(#[trigger] grants@[j], *t, *change_set, *work_item),
        },
{
    let mut i: usize = 0;
    while i < grants.len()
        invariant
            i <= grants@.len(),
            forall|j: int| 0 <= j < i ==> !spec_delivery_grant_matches(#[trigger] grants@[j], *t, *change_set, *work_item),
        decreases grants@.len() - i,
    {
        if delivery_grant_matches(&grants[i], t, change_set, work_item) {
            return Some(i);
        }
        i = i + 1;
    }
    None
}

/// An active, unexpired grant under supervised autonomy.
pub open spec fn envelope_grant(id: String, subject: String, scope: GrantScope) -> PermissionGrant {
    PermissionGrant { id, subject, supervised_autonomy: true, unexpired: true, scope }
}

fn clone_texts(v: &Vec<String>) -> (r: Vec<String>)
    ensures
        texts_view(r@) == texts_view(v@),
{
    let mut out: Vec<String> = Vec::new();
    let mut i: usize = 0;
    while i < v.len()
        invariant
            i <= v@.len(),
            out@.len() == i,
            forall|k: int| 0 <= k < i ==> #[trigger] out@[k]@ == v@[k]@,
        decreases v@.len() - i,
    {
        out.push(v[i].clone());
        i = i + 1;
    }
    proof {
        assert(texts_view(out@) =~= texts_view(v@));
    }
    out
}

fn one_text(t: &str) -> (r: Vec<String>)
    ensures
        texts_view(r@) == seq![t@],
{
    let mut v: Vec<String> = Vec::new();
    v.push(t.to_owned());
    proof {
        assert(texts_view(v@) =~= seq![t@]);
    }
    v
}

fn opt_texts_list(o: &Option<String>) -> (r: Vec<String>)
    ensures
        texts_view(r@) == opt_list(opt_text(*o)),
{
    let mut v: Vec<String> = Vec::new();
    if let Some(t) = o {
        v.push(t.clone());
    }
    proof {
        assert(texts_view(v@) =~= opt_list(opt_text(*o)));
    }
    v
}

/// The scope of the trusted envelope that authorizes the Argo runner for one
/// deployment: exactly its target, its delivery chain and, for production,
/// its immutable provenance. A grant with this scope, for the runner subject
/// under supervised autonomy, is matched by the deployment grant rule
/// whenever the sync actions include `argocd_sync` and the provenance is
/// given exactly for production work.
pub fn trusted_envelope_scope(t: &DeploymentGrantTarget, binding: Option<&ProductionBinding>, argo_sync_actions: &Vec<String>) -> (s: GrantScope)
    ensures
        opt_text(s.environment) == Some(t.environment@),
        s.capability_kinds@ == seq![CapabilityKind::ArgoSync],
        texts_view(s.actions@) == texts_view(argo_sync_actions@),
        s.max_risk_at_least_high,
        texts_are(s.namespaces@, seq![t.namespace@]),
        texts_are(s.work_item_ids@, seq![t.work_item_id@]),
        texts_are(s.work_plan_ids@, seq![t.work_plan_id@]),
        texts_are(s.change_set_ids@, seq![t.change_set_id@]),
        texts_are(s.pipeline_intent_ids@, seq![t.pipeline_intent_id@]),
        texts_are(s.deployment_intent_ids@, seq![t.deployment_intent_id@]),
        texts_are(s.argo_applications@, seq![t.application@]),
        texts_are(s.pipeline_contract_ids@, opt_list(opt_text(t.pipeline_contract_id))),
        texts_are(s.deployment_contract_ids@, opt_list(opt_text(t.deployment_contract_id))),
        s.production_impacting == Some(t.production_impacting),
        match binding {
            Some(b) => texts_are(s.source_merge_shas@, seq![b.source_merge_sha@]) && texts_are(s.gitops_merge_shas@, seq![b.gitops_merge_sha@])
                && texts_are(s.image_digests@, seq![b.image_digest@]),
            None => s.source_merge_shas@.len() == 0 && s.gitops_merge_shas@.len() == 0 && s.image_digests@.len() == 0,
        },
        s.repos@.len() == 0 && s.branches@.len() == 0 && s.gitops_change_set_ids@.len() == 0
            && s.gitops_delivery_plan_artifact_ids@.len() == 0,
        seq_contains_text(argo_sync_actions@, "argocd_sync"@) && (binding is Some <==> t.production_impacting) ==> forall|id: String|
            spec_deployment_grant_matches(
                #[trigger] envelope_grant(id, t.runner_subject, s),
                *t,
                match binding {
                    Some(b) => Some(*b),
                    None => None,
                },
            ),
{
    let mut kinds: Vec<CapabilityKind> = Vec::new();
    kinds.push(CapabilityKind::ArgoSync);
    proof {
        assert(kinds@ =~= seq![CapabilityKind::ArgoSync]);
    }
    let (source, gitops, digests) = match binding {
        Some(b) => (one_text(b.source_merge_sha.as_str()), one_text(b.gitops_merge_sha.as_str()), one_text(b.image_digest.as_str())),
        None => (Vec::new(), Vec::new(), Vec::new()),
    };
    let s = GrantScope {
        environment: Some(t.environment.clone()),
        capability_kinds: kinds,
        actions: clone_texts(argo_sync_actions),
        max_risk_at_least_high: true,
        namespaces: one_text(t.namespace.as_str()),
        work_item_ids: one_text(t.work_item_id.as_str()),
        work_plan_ids: one_text(t.work_plan_id.as_str()),
        change_set_ids: one_text(t.change_set_id.as_str()),
        pipeline_intent_ids: one_text(t.pipeline_intent_id.as_str()),
        deployment_intent_ids: one_text(t.deployment_intent_id.as_str()),
        argo_applications: one_text(t.application.as_str()),
        pipeline_contract_ids: opt_texts_list(&t.pipeline_contract_id),
        deployment_contract_ids: opt_texts_list(&t.deployment_contract_id),
        source_merge_shas: source,
        gitops_merge_shas: gitops,
        image_digests: digests,
        repos: Vec::new(),
        branches: Vec::new(),
        gitops_change_set_ids: Vec::new(),
        gitops_delivery_plan_artifact_ids: Vec::new(),
        production_impacting: Some(t.production_impacting),
    };
    proof {
        assert(s.capability_kinds@[0] == CapabilityKind::ArgoSync);
        assert(s.capability_kinds@.contains(CapabilityKind::ArgoSync));
        lemma_singleton_contains(s.namespaces@, t.namespace@);
        lemma_singleton_contains(s.work_plan_ids@, t.work_plan_id@);
        lemma_singleton_contains(s.change_set_ids@, t.change_set_id@);
        lemma_singleton_contains(s.pipeline_intent_ids@, t.pipeline_intent_id@);
        lemma_singleton_contains(s.deployment_intent_ids@, t.deployment_intent_id@);
        lemma_singleton_contains(s.argo_applications@, t.application@);
        if seq_contains_text(argo_sync_actions@, "argocd_sync"@) {
            let k = choose|k: int| 0 <= k < argo_sync_actions@.len() && #[trigger] argo_sync_actions@[k]@ == "argocd_sync"@;
            assert(texts_view(s.actions@).len() == s.actions@.len());
            assert(texts_view(argo_sync_actions@).len() == argo_sync_actions@.len());
            assert(texts_view(argo_sync_actions@)[k] == argo_sync_actions@[k]@);
            assert(texts_view(s.actions@)[k] == s.actions@[k]@);
            assert(texts_view(s.actions@)[k] == texts_view(argo_sync_actions@)[k]);
            assert(s.actions@[k]@ == "argocd_sync"@);
            assert(seq_contains_text(s.actions@, "argocd_sync"@));
        }
    }
    s
}

proof fn lemma_singleton_contains(v: Seq<String>, t: Seq<char>)
    requires
        texts_view(v) == seq![t],
    ensures
        seq_contains_text(v, t),
{
    assert(texts_view(v).len() == v.len());
    assert(v.len() == 1);
    assert(texts_view(v)[0] == v[0]@);
    assert(v[0]@ == t);
}

} // verus!
