//! Planning a GitOps delivery: the plan an approved ChangeSet is bound to,
//! on its current resolved base revision, and the writer grant that
//! authorizes exactly that plan.
use vstd::prelude::*;
use vstd::utf8::encode_utf8;
use crate::artifacts::{content_view, StoredArtifact};
use crate::gitops::{spec_delivery_plan_matches, StoredGitOpsChangeSet, StoredWorkItem};
use crate::gitops_delivery::{member_object, spec_plan_source_ok};
use crate::gitops_execution::json_i64;
use crate::grants::{envelope_grant, spec_delivery_grant_matches, texts_are, CapabilityKind, DeliveryGrantTarget, GrantScope};
use crate::json::{entries_get, entries_view, json_str, lemma_object_view, obj_insert, str_member, i64_member, Json, JsonValue};
use crate::text::{opt_text, spec_contains, texts_view};
use crate::validation::{spec_is_git_sha, spec_safe_relative_path};

verus! {

broadcast use vstd::std_specs::vec::group_vec_axioms;

pub open spec fn spec_plan_owner(cs: StoredGitOpsChangeSet) -> Json {
    Json::Object(
        seq![
            ("id"@, Json::Str(cs.id@)),
            ("revision"@, Json::Int(cs.revision as int)),
            ("material_hash"@, Json::Str(cs.material_hash@)),
            ("work_item_id"@, Json::Str(cs.work_item_id@)),
            ("work_plan_id"@, Json::Str(cs.work_plan_id@)),
            ("source_change_set_id"@, Json::Str(cs.source_change_set_id@)),
            ("pipeline_intent_id"@, Json::Str(cs.pipeline_intent_id@)),
            ("deployment_intent_id"@, Json::Str(cs.deployment_intent_id@)),
        ],
    )
}

pub open spec fn spec_plan_source(cs: StoredGitOpsChangeSet, base_commit: Seq<char>, base_revision_id: Seq<char>) -> Json {
    Json::Object(
        seq![
            ("repository"@, Json::Str(cs.gitops_repo@)),
            ("base_ref"@, Json::Str(cs.gitops_ref@)),
            ("base_commit"@, Json::Str(base_commit)),
            ("head_branch"@, Json::Str(cs.head_branch@)),
            ("base_revision_artifact_id"@, Json::Str(base_revision_id)),
            ("identity"@, Json::Str("agent:git-observer"@)),
        ],
    )
}

pub open spec fn spec_plan_update(cs: StoredGitOpsChangeSet) -> Json {
    Json::Object(
        seq![
            ("operation"@, Json::Str("kustomize_set_image"@)),
            ("kustomization_path"@, Json::Str(cs.kustomization_path@)),
            ("image_name"@, Json::Str(cs.image_name@)),
            ("new_image"@, Json::Str(cs.image_ref@)),
        ],
    )
}

pub open spec fn spec_plan_authorization() -> Json {
    Json::Object(
        seq![
            ("state"@, Json::Str("not_authorized"@)),
            ("reason"@, Json::Str("requires a satisfied gitops_mutation gate, matching GitOps writer grant, and dedicated GitOps writer preflight"@)),
        ],
    )
}

pub open spec fn spec_plan_execution() -> Json {
    Json::Object(
        seq![
            ("enabled"@, Json::Bool(true)),
            ("mode"@, Json::Str("gitops_writer_job"@)),
            ("reason"@, Json::Str("requires a satisfied gitops_mutation gate, matching plan-scoped grant, configured dedicated GitOps writer, and explicit delivery execution request"@)),
        ],
    )
}

/// The delivery plan of a ChangeSet on a resolved base commit.
pub open spec fn spec_delivery_plan_content(cs: StoredGitOpsChangeSet, base_commit: Seq<char>, base_revision_id: Seq<char>) -> Json {
    Json::Object(
        seq![
            ("kind"@, Json::Str("gitops_delivery_plan"@)),
            ("version"@, Json::Int(1)),
            ("operation"@, Json::Str("branch_and_pull_request"@)),
            ("gitops_change_set"@, spec_plan_owner(cs)),
            ("source"@, spec_plan_source(cs, base_commit, base_revision_id)),
            ("update"@, spec_plan_update(cs)),
            ("authorization"@, spec_plan_authorization()),
            ("execution"@, spec_plan_execution()),
        ],
    )
}

fn object_of(e: Vec<(String, JsonValue)>) -> (r: JsonValue)
    ensures
        r@ == Json::Object(entries_view(e@)),
{
    proof {
        lemma_object_view(e);
    }
    JsonValue::Object(e)
}

/// The delivery plan an approved ChangeSet is bound to on its resolved base
/// commit.
pub fn delivery_plan_content(cs: &StoredGitOpsChangeSet, base_commit: &str, base_revision_id: &str) -> (r: JsonValue)
    ensures
        r@ == spec_delivery_plan_content(*cs, base_commit@, base_revision_id@),
{
    let mut owner: Vec<(String, JsonValue)> = Vec::new();
    obj_insert(&mut owner, "id", json_str(cs.id.as_str()));
    obj_insert(&mut owner, "revision", json_i64(cs.revision));
    obj_insert(&mut owner, "material_hash", json_str(cs.material_hash.as_str()));
    obj_insert(&mut owner, "work_item_id", json_str(cs.work_item_id.as_str()));
    obj_insert(&mut owner, "work_plan_id", json_str(cs.work_plan_id.as_str()));
    obj_insert(&mut owner, "source_change_set_id", json_str(cs.source_change_set_id.as_str()));
    obj_insert(&mut owner, "pipeline_intent_id", json_str(cs.pipeline_intent_id.as_str()));
    obj_insert(&mut owner, "deployment_intent_id", json_str(cs.deployment_intent_id.as_str()));
    proof {
        assert(entries_view(owner@) =~= spec_plan_owner(*cs)->Object_0);
    }
    let mut source: Vec<(String, JsonValue)> = Vec::new();
    obj_insert(&mut source, "repository", json_str(cs.gitops_repo.as_str()));
    obj_insert(&mut source, "base_ref", json_str(cs.gitops_ref.as_str()));
    obj_insert(&mut source, "base_commit", json_str(base_commit));
    obj_insert(&mut source, "head_branch", json_str(cs.head_branch.as_str()));
    obj_insert(&mut source, "base_revision_artifact_id", json_str(base_revision_id));
    obj_insert(&mut source, "identity", json_str("agent:git-observer"));
    proof {
        assert(entries_view(source@) =~= spec_plan_source(*cs, base_commit@, base_revision_id@)->Object_0);
    }
    let mut update: Vec<(String, JsonValue)> = Vec::new();
    obj_insert(&mut update, "operation", json_str("kustomize_set_image"));
    obj_insert(&mut update, "kustomization_path", json_str(cs.kustomization_path.as_str()));
    obj_insert(&mut update, "image_name", json_str(cs.image_name.as_str()));
    obj_insert(&mut update, "new_image", json_str(cs.image_ref.as_str()));
    proof {
        assert(entries_view(update@) =~= spec_plan_update(*cs)->Object_0);
    }
    let mut authorization: Vec<(String, JsonValue)> = Vec::new();
    obj_insert(&mut authorization, "state", json_str("not_authorized"));
    obj_insert(&mut authorization, "reason", json_str("requires a satisfied gitops_mutation gate, matching GitOps writer grant, and dedicated GitOps writer preflight"));
    proof {
        assert(entries_view(authorization@) =~= spec_plan_authorization()->Object_0);
    }
    let mut execution: Vec<(String, JsonValue)> = Vec::new();
    obj_insert(&mut execution, "enabled", JsonValue::Bool(true));
    obj_insert(&mut execution, "mode", json_str("gitops_writer_job"));
    obj_insert(&mut execution, "reason", json_str("requires a satisfied gitops_mutation gate, matching plan-scoped grant, configured dedicated GitOps writer, and explicit delivery execution request"));
    proof {
        assert(entries_view(execution@) =~= spec_plan_execution()->Object_0);
    }
    let mut plan: Vec<(String, JsonValue)> = Vec::new();
    obj_insert(&mut plan, "kind", json_str("gitops_delivery_plan"));
    obj_insert(&mut plan, "version", json_i64(1));
    obj_insert(&mut plan, "operation", json_str("branch_and_pull_request"));
    obj_insert(&mut plan, "gitops_change_set", object_of(owner));
    obj_insert(&mut plan, "source", object_of(source));
    obj_insert(&mut plan, "update", object_of(update));
    obj_insert(&mut plan, "authorization", object_of(authorization));
    obj_insert(&mut plan, "execution", object_of(execution));
    proof {
        assert(entries_view(plan@) =~= spec_delivery_plan_content(*cs, base_commit@, base_revision_id@)->Object_0);
    }
    object_of(plan)
}

/// A plan prepared for a ChangeSet is recognized as that ChangeSet's plan,
/// and, on a resolved base commit with the ChangeSet's safe path and
/// digest-pinned image, binds the source the writer is later held to.
pub proof fn lemma_prepared_plan_is_accepted(cs: StoredGitOpsChangeSet, base_commit: Seq<char>, base_revision_id: Seq<char>, plan: StoredArtifact)
    requires
        plan.kind@ == "gitops_delivery_plan"@,
        content_view(plan) == Some(spec_delivery_plan_content(cs, base_commit, base_revision_id)),
    ensures
        spec_delivery_plan_matches(plan, cs),
        spec_is_git_sha(encode_utf8(base_commit)) && spec_safe_relative_path(encode_utf8(cs.kustomization_path@))
            && spec_contains(encode_utf8(cs.image_ref@), encode_utf8("@sha256:"@)) ==> spec_plan_source_ok(
            spec_delivery_plan_content(cs, base_commit, base_revision_id),
            cs,
        ),
{
    reveal_strlit("kind");
    reveal_strlit("version");
    reveal_strlit("operation");
    reveal_strlit("gitops_change_set");
    reveal_strlit("source");
    reveal_strlit("update");
    reveal_strlit("authorization");
    reveal_strlit("execution");
    reveal_strlit("repository");
    reveal_strlit("base_ref");
    reveal_strlit("base_commit");
    reveal_strlit("head_branch");
    reveal_strlit("base_revision_artifact_id");
    reveal_strlit("identity");
    reveal_strlit("kustomization_path");
    reveal_strlit("image_name");
    reveal_strlit("new_image");
    reveal_strlit("id");
    reveal_strlit("revision");
    reveal_strlit("material_hash");
    reveal_with_fuel(entries_get, 9);
    let c = spec_delivery_plan_content(cs, base_commit, base_revision_id);
    assert("source"@[0] != "update"@[0]);
    assert("base_ref"@[5] != "base_commit"@[5]);
    assert("image_name"@[0] != "new_image"@[0]);
    assert("kind"@[0] != "version"@[0]);
    assert("gitops_change_set"@[0] != "execution"@[0]);
    assert("gitops_change_set"@[0] != "authorization"@[0]);
    assert("gitops_change_set"@[0] != "update"@[0]);
    assert("gitops_change_set"@[0] != "source"@[0]);
    assert("operation"@[0] != "execution"@[0]);
    assert("operation"@[0] != "authorization"@[0]);
    assert("operation"@[0] != "update"@[0]);
    assert("operation"@[0] != "source"@[0]);
    assert("operation"@[0] != "gitops_change_set"@[0]);
    assert(c.get("gitops_change_set"@) == Some(spec_plan_owner(cs)));
    assert(c.get("source"@) == Some(spec_plan_source(cs, base_commit, base_revision_id)));
    assert(c.get("update"@) == Some(spec_plan_update(cs)));
    assert(c.get("operation"@) == Some(Json::Str("branch_and_pull_request"@)));
    let o = spec_plan_owner(cs);
    reveal_strlit("work_item_id");
    reveal_strlit("work_plan_id");
    reveal_strlit("source_change_set_id");
    reveal_strlit("pipeline_intent_id");
    reveal_strlit("deployment_intent_id");
    assert("id"@[0] != "work_item_id"@[0]);
    assert("id"@[0] != "work_plan_id"@[0]);
    assert("id"@[0] != "source_change_set_id"@[0]);
    assert("id"@[0] != "pipeline_intent_id"@[0]);
    assert("id"@[0] != "deployment_intent_id"@[0]);
    assert("id"@[0] != "material_hash"@[0]);
    assert("id"@[0] != "revision"@[0]);
    assert("revision"@[0] != "work_item_id"@[0]);
    assert("revision"@[0] != "work_plan_id"@[0]);
    assert("revision"@[0] != "source_change_set_id"@[0]);
    assert("revision"@[0] != "pipeline_intent_id"@[0]);
    assert("revision"@[0] != "deployment_intent_id"@[0]);
    assert("revision"@[0] != "material_hash"@[0]);
    assert(o.get("id"@) == Some(Json::Str(cs.id@)));
    assert(o.get("revision"@) == Some(Json::Int(cs.revision as int)));
    assert(o.get("material_hash"@) == Some(Json::Str(cs.material_hash@)));
    let src = spec_plan_source(cs, base_commit, base_revision_id);
    assert("repository"@[0] != "identity"@[0]);
    assert("repository"@[0] != "base_revision_artifact_id"@[0]);
    assert("repository"@[0] != "head_branch"@[0]);
    assert("repository"@[0] != "base_commit"@[0]);
    assert("repository"@[0] != "base_ref"@[0]);
    assert("base_ref"@[0] != "identity"@[0]);
    assert("base_ref"@[7] != "base_revision_artifact_id"@[7]);
    assert("base_ref"@[0] != "head_branch"@[0]);
    assert("base_ref"@[5] != "base_commit"@[5]);
    assert("head_branch"@[0] != "identity"@[0]);
    assert("head_branch"@[0] != "base_revision_artifact_id"@[0]);
    assert("base_commit"@[0] != "identity"@[0]);
    assert("base_commit"@[5] != "base_revision_artifact_id"@[5]);
    assert("base_commit"@[0] != "head_branch"@[0]);
    assert("kustomization_path"@[0] != "new_image"@[0]);
    assert("kustomization_path"@[0] != "image_name"@[0]);
    assert("image_name"@[0] != "new_image"@[0]);
    assert(src.get("repository"@) == Some(Json::Str(cs.gitops_repo@)));
    assert(src.get("base_ref"@) == Some(Json::Str(cs.gitops_ref@)));
    assert(src.get("head_branch"@) == Some(Json::Str(cs.head_branch@)));
    assert(src.get("base_commit"@) == Some(Json::Str(base_commit)));
    let u = spec_plan_update(cs);
    assert(u.get("kustomization_path"@) == Some(Json::Str(cs.kustomization_path@)));
    assert(u.get("image_name"@) == Some(Json::Str(cs.image_name@)));
    assert(u.get("new_image"@) == Some(Json::Str(cs.image_ref@)));
}

fn text_list(t: &str) -> (r: Vec<String>)
    ensures
        texts_view(r@) == seq![t@],
{
    let mut v: Vec<String> = Vec::new();
    v.push(t.to_owned());
    proof {
        assert(texts_view(v@) =~= seq![t@]);
    }
    v
}

fn copy_texts(v: &Vec<String>) -> (r: Vec<String>)
    ensures
        r@.len() == v@.len(),
        forall|k: int| 0 <= k < v@.len() ==> #[trigger] r@[k]@ == v@[k]@,
{
    let mut out: Vec<String> = Vec::new();
    let mut i: usize = 0;
    while i < v.len()
        invariant
            i <= v@.len(),
            out@.len() == i,
            forall|k: int| 0 <= k < i ==> #[trigger] out@[k]@ == v@[k]@,
        decreases v@.len() - i,
    {
        out.push(v[i].clone());
        i = i + 1;
    }
    out
}

/// The scope of the grant that authorizes the GitOps writer for exactly one
/// delivery plan. Such a grant, for the writer subject under supervised
/// autonomy, is matched by the delivery grant rule as long as the work item
/// still targets the ChangeSet's repository and ref.
pub fn delivery_grant_scope(t: &DeliveryGrantTarget, change_set: &StoredGitOpsChangeSet, work_item: &StoredWorkItem) -> (s: GrantScope)
    ensures
        opt_text(s.environment) == Some(work_item.target_environment@),
        s.capability_kinds@ == seq![CapabilityKind::Git],
        s.actions@.len() == t.delivery_actions@.len(),
        forall|k: int| 0 <= k < s.actions@.len() ==> #[trigger] s.actions@[k]@ == t.delivery_actions@[k]@,
        s.max_risk_at_least_high,
        texts_are(s.repos@, seq![change_set.gitops_repo@]),
        texts_are(s.branches@, seq![change_set.head_branch@]),
        texts_are(s.work_plan_ids@, seq![change_set.work_plan_id@]),
        texts_are(s.gitops_change_set_ids@, seq![change_set.id@]),
        texts_are(s.gitops_delivery_plan_artifact_ids@, seq![t.plan_artifact_id@]),
        s.production_impacting == Some(work_item.production_impacting),
        opt_text(work_item.gitops_repo) == Some(change_set.gitops_repo@) && opt_text(work_item.gitops_ref) == Some(change_set.gitops_ref@)
            ==> forall|id: String| spec_delivery_grant_matches(#[trigger] envelope_grant(id, t.subject, s), *t, *change_set, *work_item),
{
    let mut kinds: Vec<CapabilityKind> = Vec::new();
    kinds.push(CapabilityKind::Git);
    proof {
        assert(kinds@ =~= seq![CapabilityKind::Git]);
    }
    let s = GrantScope {
        environment: Some(work_item.target_environment.clone()),
        capability_kinds: kinds,
        actions: copy_texts(&t.delivery_actions),
        max_risk_at_least_high: true,
        namespaces: Vec::new(),
        work_item_ids: Vec::new(),
        work_plan_ids: text_list(change_set.work_plan_id.as_str()),
        change_set_ids: Vec::new(),
        pipeline_intent_ids: Vec::new(),
        deployment_intent_ids: Vec::new(),
        argo_applications: Vec::new(),
        pipeline_contract_ids: Vec::new(),
        deployment_contract_ids: Vec::new(),
        source_merge_shas: Vec::new(),
        gitops_merge_shas: Vec::new(),
        image_digests: Vec::new(),
        repos: text_list(change_set.gitops_repo.as_str()),
        branches: text_list(change_set.head_branch.as_str()),
        gitops_change_set_ids: text_list(change_set.id.as_str()),
        gitops_delivery_plan_artifact_ids: text_list(t.plan_artifact_id.as_str()),
        production_impacting: Some(work_item.production_impacting),
    };
    proof {
        assert forall|i: int| 0 <= i < t.delivery_actions@.len() implies crate::gitops_delivery::seq_contains_text(
            s.actions@,
            #[trigger] t.delivery_actions@[i]@,
        ) by {
            assert(s.actions@[i]@ == t.delivery_actions@[i]@);
        }
    }
    s
}

} // verus!
