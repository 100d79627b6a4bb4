//! Dispatching the GitOps executors: when an earlier dispatch is reused
//! instead of starting another, and the status an execution reports.
use vstd::prelude::*;
use crate::artifacts::{content_view, latest_matching, latest_of, opt_index, StoredArtifact};
use crate::error::{ApiError, ErrorKind};
use crate::gitops::{
    gitops_artifact_change_set_revision, gitops_delivery_artifact_matches_plan,
    gitops_observation_refreshable, spec_artifact_matches_plan, spec_artifact_revision,
    spec_observation_refreshable, StoredGitOpsChangeSet,
};
use crate::json::{
    entries_view, get_str, get_u64, json_opt_str, json_str, lemma_object_view, obj_insert, str_member,
    str_member_is, u64_member, Json, JsonNumber, JsonValue,
};
use crate::gitops_delivery::GitOpsDeliveryPlanSource;
use crate::validation::{clean_optional_text, option_view, spec_clean_optional_text};
use crate::text::{str_eq, texts_view};

verus! {

broadcast use vstd::std_specs::vec::group_vec_axioms;

/// The status an artifact of `kind` reports for `execution_id`, if it does.
pub open spec fn reported_status(a: StoredArtifact, kind: Seq<char>, execution_id: Seq<char>) -> Option<Seq<char>> {
    match content_view(a) {
        Some(c) => if a.kind@ == kind && str_member(c, "execution_id"@) == Some(execution_id) {
            str_member(c, "status"@)
        } else {
            None
        },
        None => None,
    }
}

/// The status reported by the first result of `kind` for `execution_id`.
pub open spec fn spec_execution_status(arts: Seq<StoredArtifact>, kind: Seq<char>, execution_id: Seq<char>) -> Option<Seq<char>>
    decreases arts.len(),
{
    if arts.len() == 0 {
        None
    } else {
        match reported_status(arts[0], kind, execution_id) {
            Some(s) => Some(s),
            None => spec_execution_status(arts.drop_first(), kind, execution_id),
        }
    }
}

fn reported_status_exec<'a>(a: &'a StoredArtifact, kind: &str, execution_id: &str) -> (r: Option<&'a str>)
    ensures
        match r {
            Some(s) => reported_status(*a, kind@, execution_id@) == Some(s@),
            None => reported_status(*a, kind@, execution_id@) is None,
        },
{
    match &a.content_json {
        Some(c) => if str_eq(a.kind.as_str(), kind) && str_member_is(c, "execution_id", execution_id) {
            get_str(c, "status")
        } else {
            None
        },
        None => None,
    }
}

/// The status the first result of `kind` reports for `execution_id`.
pub fn execution_status(artifacts: &Vec<StoredArtifact>, kind: &str, execution_id: &str) -> (r: Option<String>)
    ensures
        match r {
            Some(s) => spec_execution_status(artifacts@, kind@, execution_id@) == Some(s@),
            None => spec_execution_status(artifacts@, kind@, execution_id@) is None,
        },
{
    let n = artifacts.len();
    let mut i: usize = 0;
    proof {
        assert(artifacts@.subrange(0, n as int) =~= artifacts@);
    }
    while i < n
        invariant
            n == artifacts@.len(),
            i <= n,
            spec_execution_status(artifacts@, kind@, execution_id@) == spec_execution_status(
                artifacts@.subrange(i as int, n as int),
                kind@,
                execution_id@,
            ),
        decreases n - i,
    {
        let ghost rest = artifacts@.subrange(i as int, n as int);
        proof {
            assert(rest[0] == artifacts@[i as int]);
            assert(rest.drop_first() =~= artifacts@.subrange(i + 1, n as int));
        }
        if let Some(s) = reported_status_exec(&artifacts[i], kind, execution_id) {
            return Some(s.to_owned());
        }
        i = i + 1;
    }
    proof {
        assert(artifacts@.subrange(n as int, n as int) =~= Seq::<StoredArtifact>::empty());
    }
    None
}

/// The status of the execution an artifact records: what its result
/// reports, else still dispatched.
pub open spec fn spec_recorded_execution_status(arts: Seq<StoredArtifact>, execution: StoredArtifact, result_kind: Seq<char>) -> Seq<char> {
    match content_view(execution) {
        Some(c) => match str_member(c, "execution_id"@) {
            Some(id) => match spec_execution_status(arts, result_kind, id) {
                Some(s) => s,
                None => "dispatched"@,
            },
            None => "dispatched"@,
        },
        None => "dispatched"@,
    }
}

fn recorded_execution_status_of(artifacts: &Vec<StoredArtifact>, execution: &StoredArtifact, result_kind: &str) -> (r: String)
    ensures
        r@ == spec_recorded_execution_status(artifacts@, *execution, result_kind@),
{
    let id = match &execution.content_json {
        Some(c) => get_str(c, "execution_id"),
        None => None,
    };
    match id {
        Some(id) => match execution_status(artifacts, result_kind, id) {
            Some(s) => s,
            None => String::from_str("dispatched"),
        },
        None => String::from_str("dispatched"),
    }
}

/// A base revision resolution dispatched for the current ChangeSet revision
/// and material.
pub open spec fn spec_base_revision_execution_matches(a: StoredArtifact, cs: StoredGitOpsChangeSet) -> bool {
    &&& a.kind@ == "gitops_base_revision_execution"@
    &&& content_view(a) matches Some(c) && {
        &&& str_member(c, "gitops_change_set_id"@) == Some(cs.id@)
        &&& str_member(c, "material_hash"@) == Some(cs.material_hash@)
        &&& spec_artifact_revision(c) == cs.revision as int
    }
}

pub open spec fn base_revision_execution_flags(arts: Seq<StoredArtifact>, cs: StoredGitOpsChangeSet) -> Seq<bool> {
    Seq::new(arts.len(), |i: int| spec_base_revision_execution_matches(arts[i], cs))
}

fn base_revision_execution_matches(a: &StoredArtifact, cs: &StoredGitOpsChangeSet) -> (r: bool)
    ensures
        r == spec_base_revision_execution_matches(*a, *cs),
{
    str_eq(a.kind.as_str(), "gitops_base_revision_execution") && match &a.content_json {
        Some(c) => str_member_is(c, "gitops_change_set_id", cs.id.as_str()) && str_member_is(
            c,
            "material_hash",
            cs.material_hash.as_str(),
        ) && gitops_artifact_change_set_revision(c) == cs.revision,
        None => false,
    }
}

/// The earlier resolution to answer with instead of dispatching again: the
/// latest one for this revision, unless it failed.
pub open spec fn spec_reusable_base_revision(arts: Seq<StoredArtifact>, cs: StoredGitOpsChangeSet) -> Option<(int, Seq<char>)> {
    match latest_of(arts, base_revision_execution_flags(arts, cs)) {
        Some(i) => {
            let status = spec_recorded_execution_status(arts, arts[i], "gitops_base_revision"@);
            if status != "failed"@ {
                Some((i, status))
            } else {
                None
            }
        },
        None => None,
    }
}

/// The earlier base revision resolution of the current ChangeSet revision
/// that still stands, with its status.
pub fn reusable_base_revision_execution(artifacts: &Vec<StoredArtifact>, change_set: &StoredGitOpsChangeSet) -> (r: Option<(usize, String)>)
    ensures
        match r {
            Some((i, s)) => spec_reusable_base_revision(artifacts@, *change_set) == Some((i as int, s@)),
            None => spec_reusable_base_revision(artifacts@, *change_set) is None,
        },
{
    let mut flags: Vec<bool> = Vec::new();
    let mut i: usize = 0;
    while i < artifacts.len()
        invariant
            i <= artifacts@.len(),
            flags@.len() == i,
            forall|j: int| 0 <= j < i ==> #[trigger] flags@[j] == spec_base_revision_execution_matches(artifacts@[j], *change_set),
        decreases artifacts@.len() - i,
    {
        flags.push(base_revision_execution_matches(&artifacts[i], change_set));
        i = i + 1;
    }
    proof {
        assert(flags@ =~= base_revision_execution_flags(artifacts@, *change_set));
    }
    match latest_matching(artifacts, &flags) {
        Some(k) => {
            let status = recorded_execution_status_of(artifacts, &artifacts[k], "gitops_base_revision");
            if str_eq(status.as_str(), "failed") {
                None
            } else {
                Some((k, status))
            }
        },
        None => None,
    }
}

/// A delivery execution dispatched for this plan under this writer grant.
pub open spec fn spec_delivery_execution_matches(a: StoredArtifact, plan_id: Seq<char>, grant_id: Seq<char>) -> bool {
    &&& spec_artifact_matches_plan(a, "gitops_delivery_execution"@, plan_id)
    &&& content_view(a) matches Some(c) && str_member(c, "permission_grant_id"@) == Some(grant_id)
}

/// Index of the first delivery execution for this plan and grant.
pub open spec fn first_delivery_execution(arts: Seq<StoredArtifact>, plan_id: Seq<char>, grant_id: Seq<char>) -> Option<int>
    decreases arts.len(),
{
    if arts.len() == 0 {
        None
    } else if spec_delivery_execution_matches(arts[0], plan_id, grant_id) {
        Some(0)
    } else {
        match first_delivery_execution(arts.drop_first(), plan_id, grant_id) {
            Some(i) => Some(i + 1),
            None => None,
        }
    }
}

/// An earlier dispatch answered again: its position, its status and the job
/// it started, if recorded.
pub struct ReusedExecution {
    pub index: usize,
    pub status: String,
    pub job_name: Option<String>,
}

pub open spec fn spec_job_name(a: StoredArtifact) -> Option<Seq<char>> {
    match content_view(a) {
        Some(c) => str_member(c, "job_name"@),
        None => None,
    }
}

fn job_name_of(a: &StoredArtifact) -> (r: Option<String>)
    ensures
        crate::text::opt_text(r) == spec_job_name(*a),
{
    match &a.content_json {
        Some(c) => match get_str(c, "job_name") {
            Some(j) => Some(j.to_owned()),
            None => None,
        },
        None => None,
    }
}

/// The delivery execution already dispatched for this plan and grant, with
/// the status its result reports.
pub fn existing_delivery_execution(artifacts: &Vec<StoredArtifact>, plan_id: &str, grant_id: &str) -> (r: Option<ReusedExecution>)
    ensures
        match r {
            Some(e) => first_delivery_execution(artifacts@, plan_id@, grant_id@) == Some(e.index as int)
                && e.status@ == spec_recorded_execution_status(artifacts@, artifacts@[e.index as int], "gitops_delivery_result"@)
                && crate::text::opt_text(e.job_name) == spec_job_name(artifacts@[e.index as int]),
            None => first_delivery_execution(artifacts@, plan_id@, grant_id@) is None,
        },
{
    let n = artifacts.len();
    let mut i: usize = 0;
    proof {
        assert(artifacts@.subrange(0, n as int) =~= artifacts@);
    }
    while i < n
        invariant
            n == artifacts@.len(),
            i <= n,
            first_delivery_execution(artifacts@, plan_id@, grant_id@) == match first_delivery_execution(
                artifacts@.subrange(i as int, n as int),
                plan_id@,
                grant_id@,
            ) {
                Some(t) => Some(t + i),
                None => None::<int>,
            },
        decreases n - i,
    {
        let ghost rest = artifacts@.subrange(i as int, n as int);
        proof {
            assert(rest[0] == artifacts@[i as int]);
            assert(rest.drop_first() =~= artifacts@.subrange(i + 1, n as int));
        }
        let a = &artifacts[i];
        let matches = gitops_delivery_artifact_matches_plan(a, "gitops_delivery_execution", plan_id) && match &a.content_json {
            Some(c) => str_member_is(c, "permission_grant_id", grant_id),
            None => false,
        };
        if matches {
            let status = recorded_execution_status_of(artifacts, a, "gitops_delivery_result");
            return Some(ReusedExecution { index: i, status, job_name: job_name_of(a) });
        }
        i = i + 1;
    }
    proof {
        assert(artifacts@.subrange(n as int, n as int) =~= Seq::<StoredArtifact>::empty());
    }
    None
}

/// A completed branch-and-pull-request result of this plan.
pub open spec fn spec_completed_delivery_result(a: StoredArtifact, plan_id: Seq<char>) -> bool {
    &&& spec_artifact_matches_plan(a, "gitops_delivery_result"@, plan_id)
    &&& content_view(a) matches Some(c) && str_member(c, "status"@) == Some("completed"@)
}

pub open spec fn completed_result_flags(arts: Seq<StoredArtifact>, plan_id: Seq<char>) -> Seq<bool> {
    Seq::new(arts.len(), |i: int| spec_completed_delivery_result(arts[i], plan_id))
}

/// The latest completed delivery result of the plan, which an observation
/// of the pull request it opened requires.
pub fn completed_delivery_result(artifacts: &Vec<StoredArtifact>, plan_id: &str) -> (r: Result<usize, ApiError>)
    ensures
        match r {
            Ok(i) => latest_of(artifacts@, completed_result_flags(artifacts@, plan_id@)) == Some(i as int),
            Err(e) => latest_of(artifacts@, completed_result_flags(artifacts@, plan_id@)) is None
                && e.kind == ErrorKind::Conflict
                && e.message@ == "GitOps delivery observation requires a completed branch-and-PR result"@,
        },
{
    let mut flags: Vec<bool> = Vec::new();
    let mut i: usize = 0;
    while i < artifacts.len()
        invariant
            i <= artifacts@.len(),
            flags@.len() == i,
            forall|j: int| 0 <= j < i ==> #[trigger] flags@[j] == spec_completed_delivery_result(artifacts@[j], plan_id@),
        decreases artifacts@.len() - i,
    {
        let a = &artifacts[i];
        let completed = gitops_delivery_artifact_matches_plan(a, "gitops_delivery_result", plan_id) && match &a.content_json {
            Some(c) => str_member_is(c, "status", "completed"),
            None => false,
        };
        flags.push(completed);
        i = i + 1;
    }
    proof {
        assert(flags@ =~= completed_result_flags(artifacts@, plan_id@));
    }
    match latest_matching(artifacts, &flags) {
        Some(k) => Ok(k),
        None => Err(ApiError::conflict("GitOps delivery observation requires a completed branch-and-PR result")),
    }
}

/// The pull request a completed delivery result opened.
pub struct PullRequestProvenance {
    pub number: u64,
    pub url: String,
    pub commit_sha: String,
}

pub open spec fn details_of(result: Option<Json>) -> Option<Json> {
    match result {
        Some(c) => match c.get("details"@) {
            Some(d) => if d.is_object() {
                Some(d)
            } else {
                None
            },
            None => None,
        },
        None => None,
    }
}

/// The pull-request provenance a result must carry, or the refusal owed.
/// `url_recognized` states whether the pull request URL is a GitHub pull
/// request URL.
pub open spec fn spec_pull_request_provenance(result: Option<Json>, url_recognized: bool) -> Result<(int, Seq<char>, Seq<char>), Seq<char>> {
    match details_of(result) {
        None => Err("GitOps delivery result has no pull-request provenance"@),
        Some(d) => match u64_member(d, "pull_request_number"@) {
            None => Err("GitOps delivery result has no pull-request number"@),
            Some(n) => match str_member(d, "pull_request_url"@) {
                None => Err("GitOps delivery result has no pull_request_url"@),
                Some(url) => match str_member(d, "commit_sha"@) {
                    None => Err("GitOps delivery result has no commit_sha"@),
                    Some(sha) => if !crate::validation::spec_is_git_sha(vstd::utf8::encode_utf8(sha)) || !url_recognized {
                        Err("GitOps delivery result has invalid GitHub provenance"@)
                    } else {
                        Ok((n, url, sha))
                    },
                },
            },
        },
    }
}

/// The pull-request provenance of a completed delivery result.
pub fn pull_request_provenance(result: Option<&JsonValue>, url_recognized: bool) -> (r: Result<PullRequestProvenance, ApiError>)
    ensures
        match r {
            Ok(p) => spec_pull_request_provenance(crate::json::opt_json_view(result), url_recognized)
                == Ok::<(int, Seq<char>, Seq<char>), Seq<char>>((p.number as int, p.url@, p.commit_sha@)),
            Err(e) => e.kind == ErrorKind::Conflict && spec_pull_request_provenance(crate::json::opt_json_view(result), url_recognized)
                == Err::<(int, Seq<char>, Seq<char>), Seq<char>>(e.message@),
        },
{
    let details = match result {
        Some(c) => match c.get("details") {
            Some(d) => if d.is_object() {
                d
            } else {
                return Err(ApiError::conflict("GitOps delivery result has no pull-request provenance"));
            },
            None => return Err(ApiError::conflict("GitOps delivery result has no pull-request provenance")),
        },
        None => return Err(ApiError::conflict("GitOps delivery result has no pull-request provenance")),
    };
    let number = match get_u64(details, "pull_request_number") {
        Some(n) => n,
        None => return Err(ApiError::conflict("GitOps delivery result has no pull-request number")),
    };
    let url = match crate::gitops_delivery::required_json_string(details, "pull_request_url", "GitOps delivery result") {
        Ok(u) => u,
        Err(e) => {
            proof {
                reveal_strlit("GitOps delivery result");
                reveal_strlit(" has no ");
                reveal_strlit("pull_request_url");
                reveal_strlit("GitOps delivery result has no pull_request_url");
                assert(e.message@ =~= "GitOps delivery result has no pull_request_url"@);
            }
            return Err(e);
        },
    };
    let sha = match crate::gitops_delivery::required_json_string(details, "commit_sha", "GitOps delivery result") {
        Ok(s) => s,
        Err(e) => {
            proof {
                reveal_strlit("GitOps delivery result");
                reveal_strlit(" has no ");
                reveal_strlit("commit_sha");
                reveal_strlit("GitOps delivery result has no commit_sha");
                assert(e.message@ =~= "GitOps delivery result has no commit_sha"@);
            }
            return Err(e);
        },
    };
    if !crate::validation::is_git_sha(sha.as_str()) || !url_recognized {
        return Err(ApiError::conflict("GitOps delivery result has invalid GitHub provenance"));
    }
    Ok(PullRequestProvenance { number, url, commit_sha: sha })
}

/// A dispatch failure recorded for the execution `execution_id` names.
pub open spec fn is_dispatch_failure_for(a: StoredArtifact, execution_id: Option<Seq<char>>) -> bool {
    &&& a.kind@ == "gitops_delivery_observation_dispatch_failure"@
    &&& content_view(a) matches Some(f) && str_member(f, "execution_id"@) == execution_id
}

pub open spec fn spec_dispatch_failed(arts: Seq<StoredArtifact>, execution_id: Option<Seq<char>>) -> bool {
    exists|k: int| 0 <= k < arts.len() && is_dispatch_failure_for(#[trigger] arts[k], execution_id)
}

/// An observation dispatched for this plan and result whose dispatch did not
/// fail.
pub open spec fn spec_live_observation_execution(arts: Seq<StoredArtifact>, a: StoredArtifact, plan_id: Seq<char>, result_id: Seq<char>) -> bool {
    &&& a.kind@ == "gitops_delivery_observation_execution"@
    &&& content_view(a) matches Some(c) && {
        &&& str_member(c, "gitops_delivery_plan_artifact_id"@) == Some(plan_id)
        &&& str_member(c, "gitops_delivery_result_artifact_id"@) == Some(result_id)
        &&& !spec_dispatch_failed(arts, str_member(c, "execution_id"@))
    }
}

pub open spec fn live_observation_flags(arts: Seq<StoredArtifact>, plan_id: Seq<char>, result_id: Seq<char>) -> Seq<bool> {
    Seq::new(arts.len(), |i: int| spec_live_observation_execution(arts, arts[i], plan_id, result_id))
}

/// A pull-request observation of this plan reported by `execution_id`.
pub open spec fn spec_observation_of(a: StoredArtifact, plan_id: Seq<char>, execution_id: Seq<char>) -> bool {
    &&& spec_artifact_matches_plan(a, "gitops_delivery_pr_observation"@, plan_id)
    &&& content_view(a) matches Some(c) && str_member(c, "execution_id"@) == Some(execution_id)
}

pub open spec fn observation_flags(arts: Seq<StoredArtifact>, plan_id: Seq<char>, execution_id: Seq<char>) -> Seq<bool> {
    Seq::new(arts.len(), |i: int| spec_observation_of(arts[i], plan_id, execution_id))
}

pub open spec fn opt_exec_id(a: StoredArtifact) -> Option<Seq<char>> {
    match content_view(a) {
        Some(c) => str_member(c, "execution_id"@),
        None => None,
    }
}

/// The observation execution to answer with instead of dispatching again:
/// the latest live one, unless the latest pull-request observation it
/// produced can be refreshed.
pub open spec fn spec_reusable_observation(arts: Seq<StoredArtifact>, plan_id: Seq<char>, result_id: Seq<char>) -> Option<int> {
    match latest_of(arts, live_observation_flags(arts, plan_id, result_id)) {
        Some(i) => {
            let terminal = match opt_exec_id(arts[i]) {
                Some(id) => latest_of(arts, observation_flags(arts, plan_id, id)),
                None => None,
            };
            if terminal matches Some(t) && spec_observation_refreshable(content_view(arts[t])) {
                None
            } else {
                Some(i)
            }
        },
        None => None,
    }
}

pub open spec fn spec_execution_status_member(a: StoredArtifact) -> Seq<char> {
    match content_view(a) {
        Some(c) => match str_member(c, "status"@) {
            Some(s) => s,
            None => "dispatched"@,
        },
        None => "dispatched"@,
    }
}

fn dispatch_failed(artifacts: &Vec<StoredArtifact>, execution_id: Option<&str>) -> (r: bool)
    ensures
        r == spec_dispatch_failed(artifacts@, crate::text::opt_str_view(execution_id)),
{
    let mut i: usize = 0;
    while i < artifacts.len()
        invariant
            i <= artifacts@.len(),
            forall|k: int| 0 <= k < i ==> !is_dispatch_failure_for(#[trigger] artifacts@[k], crate::text::opt_str_view(execution_id)),
        decreases artifacts@.len() - i,
    {
        let a = &artifacts[i];
        if str_eq(a.kind.as_str(), "gitops_delivery_observation_dispatch_failure") {
            if let Some(f) = &a.content_json {
                let same = match (get_str(f, "execution_id"), execution_id) {
                    (Some(x), Some(y)) => str_eq(x, y),
                    (None, None) => true,
                    _ => false,
                };
                if same {
                    return true;
                }
            }
        }
        i = i + 1;
    }
    false
}

/// The observation execution already dispatched for this plan and result
/// that still stands, with its status and job.
pub fn existing_observation_execution(artifacts: &Vec<StoredArtifact>, plan_id: &str, result_id: &str) -> (r: Option<ReusedExecution>)
    ensures
        match r {
            Some(e) => spec_reusable_observation(artifacts@, plan_id@, result_id@) == Some(e.index as int)
                && e.status@ == spec_execution_status_member(artifacts@[e.index as int])
                && crate::text::opt_text(e.job_name) == spec_job_name(artifacts@[e.index as int]),
            None => spec_reusable_observation(artifacts@, plan_id@, result_id@) is None,
        },
{
    let mut flags: Vec<bool> = Vec::new();
    let mut i: usize = 0;
    while i < artifacts.len()
        invariant
            i <= artifacts@.len(),
            flags@.len() == i,
            forall|j: int| 0 <= j < i ==> #[trigger] flags@[j] == spec_live_observation_execution(artifacts@, artifacts@[j], plan_id@, result_id@),
        decreases artifacts@.len() - i,
    {
        let a = &artifacts[i];
        let live = str_eq(a.kind.as_str(), "gitops_delivery_observation_execution") && match &a.content_json {
            Some(c) => str_member_is(c, "gitops_delivery_plan_artifact_id", plan_id) && str_member_is(
                c,
                "gitops_delivery_result_artifact_id",
                result_id,
            ) && !dispatch_failed(artifacts, get_str(c, "execution_id")),
            None => false,
        };
        flags.push(live);
        i = i + 1;
    }
    proof {
        assert(flags@ =~= live_observation_flags(artifacts@, plan_id@, result_id@));
    }
    let k = match latest_matching(artifacts, &flags) {
        Some(k) => k,
        None => return None,
    };
    let existing = &artifacts[k];
    let execution_id = match &existing.content_json {
        Some(c) => get_str(c, "execution_id"),
        None => None,
    };
    let terminal = match execution_id {
        Some(id) => {
            let mut obs: Vec<bool> = Vec::new();
            let mut j: usize = 0;
            while j < artifacts.len()
                invariant
                    j <= artifacts@.len(),
                    obs@.len() == j,
                    forall|t: int| 0 <= t < j ==> #[trigger] obs@[t] == spec_observation_of(artifacts@[t], plan_id@, id@),
                decreases artifacts@.len() - j,
            {
                let a = &artifacts[j];
                let of = gitops_delivery_artifact_matches_plan(a, "gitops_delivery_pr_observation", plan_id) && match &a.content_json {
                    Some(c) => str_member_is(c, "execution_id", id),
                    None => false,
                };
                obs.push(of);
                j = j + 1;
            }
            proof {
                assert(obs@ =~= observation_flags(artifacts@, plan_id@, id@));
            }
            latest_matching(artifacts, &obs)
        },
        None => None,
    };
    let refreshable = match terminal {
        Some(t) => gitops_observation_refreshable(artifacts[t].content_json.as_ref()),
        None => false,
    };
    if refreshable {
        return None;
    }
    let status = match &existing.content_json {
        Some(c) => match get_str(c, "status") {
            Some(s) => s.to_owned(),
            None => String::from_str("dispatched"),
        },
        None => String::from_str("dispatched"),
    };
    Some(ReusedExecution { index: k, status, job_name: job_name_of(existing) })
}

/// A JSON integer.
pub fn json_i64(n: i64) -> (r: JsonValue)
    ensures
        r@ == Json::Int(n as int),
{
    if n >= 0 {
        JsonValue::Number(JsonNumber::PosInt(n as u64))
    } else {
        JsonValue::Number(JsonNumber::NegInt(n))
    }
}

/// A JSON integer from an unsigned number.
pub fn json_u64(n: u64) -> (r: JsonValue)
    ensures
        r@ == Json::Int(n as int),
{
    JsonValue::Number(JsonNumber::PosInt(n))
}

pub open spec fn opt_json_str(o: Option<Seq<char>>) -> Json {
    match o {
        Some(s) => Json::Str(s),
        None => Json::Null,
    }
}

pub open spec fn spec_base_revision_execution_content(execution_id: Seq<char>, cs: StoredGitOpsChangeSet, reason: Seq<char>) -> Json {
    Json::Object(
        seq![
            ("execution_id"@, Json::Str(execution_id)),
            ("status"@, Json::Str("dispatched"@)),
            ("gitops_change_set_id"@, Json::Str(cs.id@)),
            ("gitops_change_set_revision"@, Json::Int(cs.revision as int)),
            ("material_hash"@, Json::Str(cs.material_hash@)),
            ("repository"@, Json::Str(cs.gitops_repo@)),
            ("base_ref"@, Json::Str(cs.gitops_ref@)),
            ("operation"@, Json::Str("resolve_base_revision"@)),
            ("identity"@, Json::Str("agent:git-observer"@)),
            ("reason"@, Json::Str(reason)),
        ],
    )
}

/// What a dispatched base revision resolution records.
pub fn base_revision_execution_content(execution_id: &str, cs: &StoredGitOpsChangeSet, reason: &str) -> (r: JsonValue)
    ensures
        r@ == spec_base_revision_execution_content(execution_id@, *cs, reason@),
{
    let mut e: Vec<(String, JsonValue)> = Vec::new();
    obj_insert(&mut e, "execution_id", json_str(execution_id));
    obj_insert(&mut e, "status", json_str("dispatched"));
    obj_insert(&mut e, "gitops_change_set_id", json_str(cs.id.as_str()));
    obj_insert(&mut e, "gitops_change_set_revision", json_i64(cs.revision));
    obj_insert(&mut e, "material_hash", json_str(cs.material_hash.as_str()));
    obj_insert(&mut e, "repository", json_str(cs.gitops_repo.as_str()));
    obj_insert(&mut e, "base_ref", json_str(cs.gitops_ref.as_str()));
    obj_insert(&mut e, "operation", json_str("resolve_base_revision"));
    obj_insert(&mut e, "identity", json_str("agent:git-observer"));
    obj_insert(&mut e, "reason", json_str(reason));
    proof {
        lemma_object_view(e);
        assert(entries_view(e@) =~= spec_base_revision_execution_content(execution_id@, *cs, reason@)->Object_0);
    }
    JsonValue::Object(e)
}

pub open spec fn spec_base_revision_failure_content(execution_id: Seq<char>, cs: StoredGitOpsChangeSet, execution_artifact_id: Seq<char>) -> Json {
    Json::Object(
        seq![
            ("execution_id"@, Json::Str(execution_id)),
            ("status"@, Json::Str("failed"@)),
            ("gitops_change_set_id"@, Json::Str(cs.id@)),
            ("gitops_change_set_revision"@, Json::Int(cs.revision as int)),
            ("material_hash"@, Json::Str(cs.material_hash@)),
            ("repository"@, Json::Str(cs.gitops_repo@)),
            ("base_ref"@, Json::Str(cs.gitops_ref@)),
            ("execution_artifact_id"@, Json::Str(execution_artifact_id)),
            ("identity"@, Json::Str("agent:git-observer"@)),
            ("error_code"@, Json::Str("job_dispatch_failed"@)),
        ],
    )
}

/// What a base revision resolution whose job could not be dispatched records.
pub fn base_revision_failure_content(execution_id: &str, cs: &StoredGitOpsChangeSet, execution_artifact_id: &str) -> (r: JsonValue)
    ensures
        r@ == spec_base_revision_failure_content(execution_id@, *cs, execution_artifact_id@),
{
    let mut e: Vec<(String, JsonValue)> = Vec::new();
    obj_insert(&mut e, "execution_id", json_str(execution_id));
    obj_insert(&mut e, "status", json_str("failed"));
    obj_insert(&mut e, "gitops_change_set_id", json_str(cs.id.as_str()));
    obj_insert(&mut e, "gitops_change_set_revision", json_i64(cs.revision));
    obj_insert(&mut e, "material_hash", json_str(cs.material_hash.as_str()));
    obj_insert(&mut e, "repository", json_str(cs.gitops_repo.as_str()));
    obj_insert(&mut e, "base_ref", json_str(cs.gitops_ref.as_str()));
    obj_insert(&mut e, "execution_artifact_id", json_str(execution_artifact_id));
    obj_insert(&mut e, "identity", json_str("agent:git-observer"));
    obj_insert(&mut e, "error_code", json_str("job_dispatch_failed"));
    proof {
        lemma_object_view(e);
        assert(entries_view(e@) =~= spec_base_revision_failure_content(execution_id@, *cs, execution_artifact_id@)->Object_0);
    }
    JsonValue::Object(e)
}

pub open spec fn spec_delivery_source_json(source: GitOpsDeliveryPlanSource) -> Json {
    Json::Object(
        seq![
            ("repository"@, Json::Str(source.repository@)),
            ("base_ref"@, Json::Str(source.base_ref@)),
            ("base_commit"@, Json::Str(source.base_commit@)),
            ("head_branch"@, Json::Str(source.head_branch@)),
            ("kustomization_path"@, Json::Str(source.kustomization_path@)),
            ("image_name"@, Json::Str(source.image_name@)),
            ("image_ref"@, Json::Str(source.image_ref@)),
        ],
    )
}

/// The immutable source a delivery execution records.
pub fn delivery_source_json(source: &GitOpsDeliveryPlanSource) -> (r: JsonValue)
    ensures
        r@ == spec_delivery_source_json(*source),
{
    let mut e: Vec<(String, JsonValue)> = Vec::new();
    obj_insert(&mut e, "repository", json_str(source.repository.as_str()));
    obj_insert(&mut e, "base_ref", json_str(source.base_ref.as_str()));
    obj_insert(&mut e, "base_commit", json_str(source.base_commit.as_str()));
    obj_insert(&mut e, "head_branch", json_str(source.head_branch.as_str()));
    obj_insert(&mut e, "kustomization_path", json_str(source.kustomization_path.as_str()));
    obj_insert(&mut e, "image_name", json_str(source.image_name.as_str()));
    obj_insert(&mut e, "image_ref", json_str(source.image_ref.as_str()));
    proof {
        lemma_object_view(e);
        assert(entries_view(e@) =~= spec_delivery_source_json(*source)->Object_0);
    }
    JsonValue::Object(e)
}

pub open spec fn spec_delivery_execution_content(execution_id: Seq<char>, cs_id: Seq<char>, plan_id: Seq<char>, grant_id: Seq<char>, subject: Seq<char>, actor: Option<Seq<char>>, reason: Seq<char>, source: GitOpsDeliveryPlanSource) -> Json {
    Json::Object(
        seq![
            ("execution_id"@, Json::Str(execution_id)),
            ("status"@, Json::Str("dispatched"@)),
            ("gitops_change_set_id"@, Json::Str(cs_id)),
            ("gitops_delivery_plan_artifact_id"@, Json::Str(plan_id)),
            ("permission_grant_id"@, Json::Str(grant_id)),
            ("subject"@, Json::Str(subject)),
            ("dispatched_by"@, opt_json_str(actor)),
            ("reason"@, Json::Str(reason)),
            ("source"@, spec_delivery_source_json(source)),
        ],
    )
}

/// What a dispatched delivery execution records.
pub fn delivery_execution_content(execution_id: &str, cs_id: &str, plan_id: &str, grant_id: &str, subject: &str, actor: Option<&str>, reason: &str, source: &GitOpsDeliveryPlanSource) -> (r: JsonValue)
    ensures
        r@ == spec_delivery_execution_content(execution_id@, cs_id@, plan_id@, grant_id@, subject@, crate::text::opt_str_view(actor), reason@, *source),
{
    let mut e: Vec<(String, JsonValue)> = Vec::new();
    obj_insert(&mut e, "execution_id", json_str(execution_id));
    obj_insert(&mut e, "status", json_str("dispatched"));
    obj_insert(&mut e, "gitops_change_set_id", json_str(cs_id));
    obj_insert(&mut e, "gitops_delivery_plan_artifact_id", json_str(plan_id));
    obj_insert(&mut e, "permission_grant_id", json_str(grant_id));
    obj_insert(&mut e, "subject", json_str(subject));
    obj_insert(&mut e, "dispatched_by", json_opt_str(actor));
    obj_insert(&mut e, "reason", json_str(reason));
    obj_insert(&mut e, "source", delivery_source_json(source));
    proof {
        lemma_object_view(e);
        assert(entries_view(e@) =~= spec_delivery_execution_content(execution_id@, cs_id@, plan_id@, grant_id@, subject@, crate::text::opt_str_view(actor), reason@, *source)->Object_0);
    }
    JsonValue::Object(e)
}

pub open spec fn spec_observation_source_json(repository: Seq<char>, head_branch: Seq<char>, pr: PullRequestProvenance) -> Json {
    Json::Object(
        seq![
            ("repository"@, Json::Str(repository)),
            ("head_branch"@, Json::Str(head_branch)),
            ("source_commit_sha"@, Json::Str(pr.commit_sha@)),
            ("pull_request_url"@, Json::Str(pr.url@)),
            ("pull_request_number"@, Json::Int(pr.number as int)),
        ],
    )
}

/// The pull request an observation execution watches.
pub fn observation_source_json(repository: &str, head_branch: &str, pr: &PullRequestProvenance) -> (r: JsonValue)
    ensures
        r@ == spec_observation_source_json(repository@, head_branch@, *pr),
{
    let mut e: Vec<(String, JsonValue)> = Vec::new();
    obj_insert(&mut e, "repository", json_str(repository));
    obj_insert(&mut e, "head_branch", json_str(head_branch));
    obj_insert(&mut e, "source_commit_sha", json_str(pr.commit_sha.as_str()));
    obj_insert(&mut e, "pull_request_url", json_str(pr.url.as_str()));
    obj_insert(&mut e, "pull_request_number", json_u64(pr.number));
    proof {
        lemma_object_view(e);
        assert(entries_view(e@) =~= spec_observation_source_json(repository@, head_branch@, *pr)->Object_0);
    }
    JsonValue::Object(e)
}

pub open spec fn spec_observation_execution_content(execution_id: Seq<char>, cs_id: Seq<char>, plan_id: Seq<char>, result_id: Seq<char>, repository: Seq<char>, head_branch: Seq<char>, pr: PullRequestProvenance, actor: Option<Seq<char>>, reason: Seq<char>) -> Json {
    Json::Object(
        seq![
            ("execution_id"@, Json::Str(execution_id)),
            ("status"@, Json::Str("dispatched"@)),
            ("gitops_change_set_id"@, Json::Str(cs_id)),
            ("gitops_delivery_plan_artifact_id"@, Json::Str(plan_id)),
            ("gitops_delivery_result_artifact_id"@, Json::Str(result_id)),
            ("source"@, spec_observation_source_json(repository, head_branch, pr)),
            ("dispatched_by"@, opt_json_str(actor)),
            ("reason"@, Json::Str(reason)),
        ],
    )
}

/// What a dispatched pull-request observation records.
pub fn observation_execution_content(execution_id: &str, cs_id: &str, plan_id: &str, result_id: &str, repository: &str, head_branch: &str, pr: &PullRequestProvenance, actor: Option<&str>, reason: &str) -> (r: JsonValue)
    ensures
        r@ == spec_observation_execution_content(execution_id@, cs_id@, plan_id@, result_id@, repository@, head_branch@, *pr, crate::text::opt_str_view(actor), reason@),
{
    let mut e: Vec<(String, JsonValue)> = Vec::new();
    obj_insert(&mut e, "execution_id", json_str(execution_id));
    obj_insert(&mut e, "status", json_str("dispatched"));
    obj_insert(&mut e, "gitops_change_set_id", json_str(cs_id));
    obj_insert(&mut e, "gitops_delivery_plan_artifact_id", json_str(plan_id));
    obj_insert(&mut e, "gitops_delivery_result_artifact_id", json_str(result_id));
    obj_insert(&mut e, "source", observation_source_json(repository, head_branch, pr));
    obj_insert(&mut e, "dispatched_by", json_opt_str(actor));
    obj_insert(&mut e, "reason", json_str(reason));
    proof {
        lemma_object_view(e);
        assert(entries_view(e@) =~= spec_observation_execution_content(execution_id@, cs_id@, plan_id@, result_id@, repository@, head_branch@, *pr, crate::text::opt_str_view(actor), reason@)->Object_0);
    }
    JsonValue::Object(e)
}

pub open spec fn spec_observation_dispatch_failure_content(execution_id: Seq<char>, cs_id: Seq<char>, plan_id: Seq<char>, result_id: Seq<char>) -> Json {
    Json::Object(
        seq![
            ("execution_id"@, Json::Str(execution_id)),
            ("status"@, Json::Str("dispatch_failed"@)),
            ("gitops_change_set_id"@, Json::Str(cs_id)),
            ("gitops_delivery_plan_artifact_id"@, Json::Str(plan_id)),
            ("gitops_delivery_result_artifact_id"@, Json::Str(result_id)),
            ("error_code"@, Json::Str("gitops_observer_dispatch_failed"@)),
        ],
    )
}

/// What a pull-request observation whose job could not be dispatched records.
pub fn observation_dispatch_failure_content(execution_id: &str, cs_id: &str, plan_id: &str, result_id: &str) -> (r: JsonValue)
    ensures
        r@ == spec_observation_dispatch_failure_content(execution_id@, cs_id@, plan_id@, result_id@),
{
    let mut e: Vec<(String, JsonValue)> = Vec::new();
    obj_insert(&mut e, "execution_id", json_str(execution_id));
    obj_insert(&mut e, "status", json_str("dispatch_failed"));
    obj_insert(&mut e, "gitops_change_set_id", json_str(cs_id));
    obj_insert(&mut e, "gitops_delivery_plan_artifact_id", json_str(plan_id));
    obj_insert(&mut e, "gitops_delivery_result_artifact_id", json_str(result_id));
    obj_insert(&mut e, "error_code", json_str("gitops_observer_dispatch_failed"));
    proof {
        lemma_object_view(e);
        assert(entries_view(e@) =~= spec_observation_dispatch_failure_content(execution_id@, cs_id@, plan_id@, result_id@)->Object_0);
    }
    JsonValue::Object(e)
}

/// An executor identity must be configured and allow the repository.
pub open spec fn spec_allowlisted(repos: Option<Seq<Seq<char>>>, repo: Seq<char>) -> bool {
    repos matches Some(rs) && rs.contains(repo)
}

pub open spec fn opt_texts(repos: Option<&Vec<String>>) -> Option<Seq<Seq<char>>> {
    match repos {
        Some(v) => Some(texts_view(v@)),
        None => None,
    }
}

/// Refuse a repository the configured executor identity may not touch:
/// `missing` when no identity is configured, `refused` when the repository
/// is not on its allowlist.
pub fn ensure_allowlisted(repos: Option<&Vec<String>>, repo: &str, missing: &str, refused: &str) -> (r: Result<(), ApiError>)
    ensures
        r is Ok <==> spec_allowlisted(opt_texts(repos), repo@),
        r matches Err(e) ==> e.kind == ErrorKind::Conflict && e.message@ == if repos is None {
            missing@
        } else {
            refused@
        },
{
    let list = match repos {
        Some(l) => l,
        None => return Err(ApiError::conflict(missing)),
    };
    let ghost texts = texts_view(list@);
    let mut i: usize = 0;
    while i < list.len()
        invariant
            texts == texts_view(list@),
            opt_texts(repos) == Some(texts),
            i <= list@.len(),
            forall|k: int| 0 <= k < i ==> list@[k]@ != repo@,
        decreases list@.len() - i,
    {
        if str_eq(list[i].as_str(), repo) {
            proof {
                assert(texts[i as int] == repo@);
                assert(texts.contains(repo@));
                assert(opt_texts(repos) == Some(texts));
            }
            return Ok(());
        }
        i = i + 1;
    }
    proof {
        if texts.contains(repo@) {
            let k = choose|k: int| 0 <= k < texts.len() && texts[k] == repo@;
            assert(list@[k]@ == repo@);
        }
    }
    Err(ApiError::conflict(refused))
}

/// Operator text that must be present: trimmed, or `message` as a bad
/// request when blank or absent.
pub fn required_reason(value: Option<String>, message: &str) -> (r: Result<String, ApiError>)
    ensures
        match r {
            Ok(t) => spec_clean_optional_text(option_view(value)) == Some(t@),
            Err(e) => spec_clean_optional_text(option_view(value)) is None && e.kind == ErrorKind::BadRequest
                && e.message@ == message@,
        },
{
    match clean_optional_text(value) {
        Some(t) => Ok(t),
        None => Err(ApiError::bad_request(message)),
    }
}

/// Whether a ChangeSet's status permits resolving its base revision.
pub open spec fn spec_resolvable_status(status: Seq<char>) -> bool {
    status == "proposed"@ || status == "approved"@
}

/// Admit a base revision resolution: a proposed or approved ChangeSet, a
/// configured read-only observer allowed on its repository, and a reason.
pub fn admit_base_revision_resolution(change_set: &StoredGitOpsChangeSet, observer_repos: Option<&Vec<String>>, reason: Option<String>) -> (r: Result<String, ApiError>)
    ensures
        r is Ok <==> spec_resolvable_status(change_set.status@) && spec_allowlisted(opt_texts(observer_repos), change_set.gitops_repo@)
            && spec_clean_optional_text(option_view(reason)) is Some,
        r matches Ok(t) ==> spec_clean_optional_text(option_view(reason)) == Some(t@),
        r matches Err(e) ==> if !spec_resolvable_status(change_set.status@) {
            e.kind == ErrorKind::Conflict
                && e.message@ == "GitOps base revision resolution requires a proposed or approved GitOps ChangeSet"@
        } else if !spec_allowlisted(opt_texts(observer_repos), change_set.gitops_repo@) {
            e.kind == ErrorKind::Conflict && e.message@ == if observer_repos is None {
                "read-only GitOps observer identity is not configured for GitOps revision resolution"@
            } else {
                "GitOps repository is not allowlisted for the read-only Git observer identity"@
            }
        } else {
            e.kind == ErrorKind::BadRequest && e.message@ == "reason is required"@
        },
{
    if !str_eq(change_set.status.as_str(), "proposed") && !str_eq(change_set.status.as_str(), "approved") {
        return Err(ApiError::conflict("GitOps base revision resolution requires a proposed or approved GitOps ChangeSet"));
    }
    match ensure_allowlisted(
        observer_repos,
        change_set.gitops_repo.as_str(),
        "read-only GitOps observer identity is not configured for GitOps revision resolution",
        "GitOps repository is not allowlisted for the read-only Git observer identity",
    ) {
        Ok(()) => {},
        Err(e) => return Err(e),
    }
    required_reason(reason, "reason is required")
}

/// A delivery may be executed only when its preflight is ready for the
/// writer and a matching writer grant exists.
pub fn admit_delivery_execution(preflight_status: &str, dispatch_ready: bool, grant_present: bool) -> (r: Result<(), ApiError>)
    ensures
        r is Ok <==> preflight_status@ == "ready_for_writer"@ && dispatch_ready && grant_present,
        r matches Err(e) ==> e.kind == ErrorKind::Conflict && e.message@ == if preflight_status@ != "ready_for_writer"@
            || !dispatch_ready {
            "GitOps delivery execution requires a current approved plan, satisfied gate, matching writer grant, and configured dedicated writer"@
        } else {
            "GitOps delivery execution requires an active matching writer grant"@
        },
{
    if !str_eq(preflight_status, "ready_for_writer") || !dispatch_ready {
        return Err(ApiError::conflict("GitOps delivery execution requires a current approved plan, satisfied gate, matching writer grant, and configured dedicated writer"));
    }
    if !grant_present {
        return Err(ApiError::conflict("GitOps delivery execution requires an active matching writer grant"));
    }
    Ok(())
}

pub open spec fn spec_resolved_base_revision_content(execution_id: Seq<char>, cs: StoredGitOpsChangeSet, execution_artifact_id: Seq<char>, base_commit: Seq<char>) -> Json {
    Json::Object(
        seq![
            ("execution_id"@, Json::Str(execution_id)),
            ("status"@, Json::Str("resolved"@)),
            ("gitops_change_set_id"@, Json::Str(cs.id@)),
            ("gitops_change_set_revision"@, Json::Int(cs.revision as int)),
            ("material_hash"@, Json::Str(cs.material_hash@)),
            ("repository"@, Json::Str(cs.gitops_repo@)),
            ("base_ref"@, Json::Str(cs.gitops_ref@)),
            ("base_commit"@, Json::Str(base_commit)),
            ("execution_artifact_id"@, Json::Str(execution_artifact_id)),
            ("identity"@, Json::Str("agent:git-observer"@)),
        ],
    )
}

/// What a resolved base revision records.
pub fn resolved_base_revision_content(execution_id: &str, cs: &StoredGitOpsChangeSet, execution_artifact_id: &str, base_commit: &str) -> (r: JsonValue)
    ensures
        r@ == spec_resolved_base_revision_content(execution_id@, *cs, execution_artifact_id@, base_commit@),
{
    let mut e: Vec<(String, JsonValue)> = Vec::new();
    obj_insert(&mut e, "execution_id", json_str(execution_id));
    obj_insert(&mut e, "status", json_str("resolved"));
    obj_insert(&mut e, "gitops_change_set_id", json_str(cs.id.as_str()));
    obj_insert(&mut e, "gitops_change_set_revision", json_i64(cs.revision));
    obj_insert(&mut e, "material_hash", json_str(cs.material_hash.as_str()));
    obj_insert(&mut e, "repository", json_str(cs.gitops_repo.as_str()));
    obj_insert(&mut e, "base_ref", json_str(cs.gitops_ref.as_str()));
    obj_insert(&mut e, "base_commit", json_str(base_commit));
    obj_insert(&mut e, "execution_artifact_id", json_str(execution_artifact_id));
    obj_insert(&mut e, "identity", json_str("agent:git-observer"));
    proof {
        lemma_object_view(e);
        assert(entries_view(e@) =~= spec_resolved_base_revision_content(execution_id@, *cs, execution_artifact_id@, base_commit@)->Object_0);
    }
    JsonValue::Object(e)
}

pub open spec fn spec_failed_base_revision_content(execution_id: Seq<char>, cs: StoredGitOpsChangeSet, execution_artifact_id: Seq<char>, error_code: Seq<char>) -> Json {
    Json::Object(
        seq![
            ("execution_id"@, Json::Str(execution_id)),
            ("status"@, Json::Str("failed"@)),
            ("gitops_change_set_id"@, Json::Str(cs.id@)),
            ("gitops_change_set_revision"@, Json::Int(cs.revision as int)),
            ("material_hash"@, Json::Str(cs.material_hash@)),
            ("repository"@, Json::Str(cs.gitops_repo@)),
            ("base_ref"@, Json::Str(cs.gitops_ref@)),
            ("execution_artifact_id"@, Json::Str(execution_artifact_id)),
            ("identity"@, Json::Str("agent:git-observer"@)),
            ("error_code"@, Json::Str(error_code)),
        ],
    )
}

/// What a failed base revision resolution records.
pub fn failed_base_revision_content(execution_id: &str, cs: &StoredGitOpsChangeSet, execution_artifact_id: &str, error_code: &str) -> (r: JsonValue)
    ensures
        r@ == spec_failed_base_revision_content(execution_id@, *cs, execution_artifact_id@, error_code@),
{
    let mut e: Vec<(String, JsonValue)> = Vec::new();
    obj_insert(&mut e, "execution_id", json_str(execution_id));
    obj_insert(&mut e, "status", json_str("failed"));
    obj_insert(&mut e, "gitops_change_set_id", json_str(cs.id.as_str()));
    obj_insert(&mut e, "gitops_change_set_revision", json_i64(cs.revision));
    obj_insert(&mut e, "material_hash", json_str(cs.material_hash.as_str()));
    obj_insert(&mut e, "repository", json_str(cs.gitops_repo.as_str()));
    obj_insert(&mut e, "base_ref", json_str(cs.gitops_ref.as_str()));
    obj_insert(&mut e, "execution_artifact_id", json_str(execution_artifact_id));
    obj_insert(&mut e, "identity", json_str("agent:git-observer"));
    obj_insert(&mut e, "error_code", json_str(error_code));
    proof {
        lemma_object_view(e);
        assert(entries_view(e@) =~= spec_failed_base_revision_content(execution_id@, *cs, execution_artifact_id@, error_code@)->Object_0);
    }
    JsonValue::Object(e)
}

/// The resolution execution an outcome reports on: one recorded for this
/// execution identity and the current ChangeSet revision and material.
pub open spec fn spec_current_resolution(a: StoredArtifact, cs: StoredGitOpsChangeSet, execution_id: Seq<char>) -> bool {
    &&& spec_base_revision_execution_matches(a, cs)
    &&& content_view(a) matches Some(c) && str_member(c, "execution_id"@) == Some(execution_id)
}

pub open spec fn first_current_resolution(arts: Seq<StoredArtifact>, cs: StoredGitOpsChangeSet, execution_id: Seq<char>) -> Option<int>
    decreases arts.len(),
{
    if arts.len() == 0 {
        None
    } else if spec_current_resolution(arts[0], cs, execution_id) {
        Some(0)
    } else {
        match first_current_resolution(arts.drop_first(), cs, execution_id) {
            Some(i) => Some(i + 1),
            None => None,
        }
    }
}

/// The current resolution execution an outcome reports on.
pub fn current_base_revision_execution(artifacts: &Vec<StoredArtifact>, change_set: &StoredGitOpsChangeSet, execution_id: &str) -> (r: Result<usize, ApiError>)
    ensures
        match r {
            Ok(i) => first_current_resolution(artifacts@, *change_set, execution_id@) == Some(i as int),
            Err(e) => first_current_resolution(artifacts@, *change_set, execution_id@) is None && e.kind == ErrorKind::Conflict
                && e.message@ == "GitOps base revision execution is not current"@,
        },
{
    let n = artifacts.len();
    let mut i: usize = 0;
    proof {
        assert(artifacts@.subrange(0, n as int) =~= artifacts@);
    }
    while i < n
        invariant
            n == artifacts@.len(),
            i <= n,
            first_current_resolution(artifacts@, *change_set, execution_id@) == match first_current_resolution(
                artifacts@.subrange(i as int, n as int),
                *change_set,
                execution_id@,
            ) {
                Some(t) => Some(t + i),
                None => None::<int>,
            },
        decreases n - i,
    {
        let ghost rest = artifacts@.subrange(i as int, n as int);
        proof {
            assert(rest[0] == artifacts@[i as int]);
            assert(rest.drop_first() =~= artifacts@.subrange(i + 1, n as int));
        }
        let a = &artifacts[i];
        let hit = base_revision_execution_matches(a, change_set) && match &a.content_json {
            Some(c) => str_member_is(c, "execution_id", execution_id),
            None => false,
        };
        if hit {
            return Ok(i);
        }
        i = i + 1;
    }
    proof {
        assert(artifacts@.subrange(n as int, n as int) =~= Seq::<StoredArtifact>::empty());
    }
    Err(ApiError::conflict("GitOps base revision execution is not current"))
}

/// What a base revision resolver reports: a resolved revision needs a full
/// commit id, a failure keeps its error code (or a generic one), and any
/// other status is refused.
pub open spec fn spec_base_revision_outcome(
    status: Seq<char>,
    base_commit: Option<Seq<char>>,
    error_code: Option<Seq<char>>,
    execution_id: Seq<char>,
    cs: StoredGitOpsChangeSet,
    execution_artifact_id: Seq<char>,
) -> Result<Json, Seq<char>> {
    if status == "resolved"@ {
        match spec_clean_optional_text(base_commit) {
            None => Err("resolved base revision outcome requires base_commit"@),
            Some(c) => if !crate::validation::spec_is_git_sha(vstd::utf8::encode_utf8(c)) {
                Err("resolved base revision outcome requires a 40-character Git SHA"@)
            } else {
                Ok(spec_resolved_base_revision_content(execution_id, cs, execution_artifact_id, c))
            },
        }
    } else if status == "failed"@ {
        let code = match spec_clean_optional_text(error_code) {
            Some(c) => c,
            None => "gitops_revision_resolver_failed"@,
        };
        Ok(spec_failed_base_revision_content(execution_id, cs, execution_artifact_id, code))
    } else {
        Err("GitOps base revision outcome status must be resolved or failed"@)
    }
}

/// The result a base revision resolver's outcome records.
pub fn base_revision_outcome_content(
    status: &str,
    base_commit: Option<String>,
    error_code: Option<String>,
    execution_id: &str,
    change_set: &StoredGitOpsChangeSet,
    execution_artifact_id: &str,
) -> (r: Result<JsonValue, ApiError>)
    ensures
        match r {
            Ok(j) => spec_base_revision_outcome(status@, option_view(base_commit), option_view(error_code), execution_id@, *change_set, execution_artifact_id@)
                == Ok::<Json, Seq<char>>(j@),
            Err(e) => e.kind == ErrorKind::BadRequest && spec_base_revision_outcome(status@, option_view(base_commit), option_view(error_code), execution_id@, *change_set, execution_artifact_id@)
                == Err::<Json, Seq<char>>(e.message@),
        },
{
    if str_eq(status, "resolved") {
        let commit = match clean_optional_text(base_commit) {
            Some(c) => c,
            None => return Err(ApiError::bad_request("resolved base revision outcome requires base_commit")),
        };
        if !crate::validation::is_git_sha(commit.as_str()) {
            return Err(ApiError::bad_request("resolved base revision outcome requires a 40-character Git SHA"));
        }
        Ok(resolved_base_revision_content(execution_id, change_set, execution_artifact_id, commit.as_str()))
    } else if str_eq(status, "failed") {
        let code = match clean_optional_text(error_code) {
            Some(c) => c,
            None => String::from_str("gitops_revision_resolver_failed"),
        };
        Ok(failed_base_revision_content(execution_id, change_set, execution_artifact_id, code.as_str()))
    } else {
        Err(ApiError::bad_request("GitOps base revision outcome status must be resolved or failed"))
    }
}

} // verus!
