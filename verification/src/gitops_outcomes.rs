//! What the GitOps writer and observer report back: a delivery outcome must
//! name the plan's own branch and a pull request of its own repository, and
//! an observation must name the delivered commit, recording a merge only for
//! a closed pull request with a full merge commit id.
use vstd::prelude::*;
use vstd::string::*;
use vstd::utf8::encode_utf8;
use crate::artifacts::{content_view, StoredArtifact};
use crate::error::{ApiError, ErrorKind};
use crate::gitops::StoredGitOpsChangeSet;
use crate::gitops_delivery::{gitops_delivery_plan_source, member_object, spec_plan_source_ok};
use crate::gitops_execution::{json_u64, opt_json_str};
use crate::json::{
    entries_view, get_str, json_opt_str, json_str, lemma_object_view, obj_insert, opt_json_view,
    str_member, Json, JsonValue,
};
use crate::text::{
    decimal_u128, ends_with_str, occurs_at, spec_decimal, starts_with_str, str_eq,
    strip_all_prefixes, strip_all_suffixes, trim_end_matches, trim_start_matches,
};
use crate::validation::{
    clean_optional_text, is_git_sha, option_view, spec_clean_optional_text, spec_is_git_sha,
};

verus! {

/// A GitOps writer's report on a delivery execution.
pub struct DeliveryOutcomeRequest {
    pub status: String,
    pub branch: Option<String>,
    pub commit_sha: Option<String>,
    pub pull_request_url: Option<String>,
    pub pull_request_number: Option<u64>,
    pub error_code: Option<String>,
}

/// The pull-request URL prefix of a repository:
/// `https://github.com/<owner>/<repo>/pull/`.
pub open spec fn spec_pull_prefix(repository: Seq<char>) -> Seq<char> {
    "https://github.com/"@ + strip_all_suffixes(strip_all_prefixes(repository, "https://github.com/"@), ".git"@) + "/pull/"@
}

pub open spec fn spec_delivery_details(branch: Seq<char>, commit: Seq<char>, url: Seq<char>, number: u64) -> Json {
    Json::Object(
        seq![
            ("branch"@, Json::Str(branch)),
            ("commit_sha"@, Json::Str(commit)),
            ("pull_request_url"@, Json::Str(url)),
            ("pull_request_number"@, Json::Int(number as int)),
        ],
    )
}

pub open spec fn spec_failure_details(code: Option<Seq<char>>, fallback: Seq<char>) -> Json {
    Json::Object(
        seq![
            ("error_code"@, Json::Str(match spec_clean_optional_text(code) {
                Some(c) => c,
                None => fallback,
            })),
        ],
    )
}

/// The result a writer's outcome records (`true` with the pull-request
/// details when completed, `false` with the error code when failed), or the
/// refusal's class and message. `url_recognized` states whether the pull
/// request URL is a GitHub pull request URL.
pub open spec fn spec_delivery_outcome(
    req: DeliveryOutcomeRequest,
    plan: StoredArtifact,
    cs: StoredGitOpsChangeSet,
    url_recognized: bool,
) -> Result<(bool, Json), ErrorKind> {
    if req.status@ == "completed"@ {
        let branch = spec_clean_optional_text(option_view(req.branch));
        let commit = spec_clean_optional_text(option_view(req.commit_sha));
        let url = spec_clean_optional_text(option_view(req.pull_request_url));
        if branch is None || commit is None || url is None || req.pull_request_number is None {
            Err(ErrorKind::BadRequest)
        } else if !(content_view(plan) matches Some(c) && spec_plan_source_ok(c, cs)) {
            Err(ErrorKind::Conflict)
        } else if branch->0 != cs.head_branch@ || !spec_is_git_sha(encode_utf8(commit->0)) || !url_recognized {
            Err(ErrorKind::Conflict)
        } else {
            let u = encode_utf8(url->0);
            let prefix = encode_utf8(spec_pull_prefix(cs.gitops_repo@));
            let number = encode_utf8(spec_decimal(req.pull_request_number->0 as nat));
            if !occurs_at(u, prefix, 0) || !(number.len() <= u.len() && occurs_at(u, number, u.len() - number.len())) {
                Err(ErrorKind::Conflict)
            } else {
                Ok((true, spec_delivery_details(branch->0, commit->0, url->0, req.pull_request_number->0)))
            }
        }
    } else if req.status@ == "failed"@ {
        Ok((false, spec_failure_details(option_view(req.error_code), "gitops_writer_failed"@)))
    } else {
        Err(ErrorKind::BadRequest)
    }
}

fn failure_details(code: Option<String>, fallback: &str) -> (r: JsonValue)
    ensures
        r@ == spec_failure_details(option_view(code), fallback@),
{
    let text = match clean_optional_text(code) {
        Some(c) => c,
        None => String::from_str(fallback),
    };
    let mut e: Vec<(String, JsonValue)> = Vec::new();
    obj_insert(&mut e, "error_code", JsonValue::Str(text));
    proof {
        lemma_object_view(e);
        assert(entries_view(e@) =~= spec_failure_details(option_view(code), fallback@)->Object_0);
    }
    JsonValue::Object(e)
}

/// Check a writer's outcome and build the details its result records.
pub fn delivery_outcome_details(
    req: DeliveryOutcomeRequest,
    plan: &StoredArtifact,
    change_set: &StoredGitOpsChangeSet,
    url_recognized: bool,
) -> (r: Result<(bool, JsonValue), ApiError>)
    ensures
        match r {
            Ok((completed, details)) => spec_delivery_outcome(req, *plan, *change_set, url_recognized)
                == Ok::<(bool, Json), ErrorKind>((completed, details@)),
            Err(e) => spec_delivery_outcome(req, *plan, *change_set, url_recognized) == Err::<(bool, Json), ErrorKind>(e.kind),
        },
{
    let ghost original = req;
    if str_eq(req.status.as_str(), "completed") {
        let branch = match clean_optional_text(req.branch) {
            Some(b) => b,
            None => return Err(ApiError::bad_request("completed GitOps delivery requires branch")),
        };
        let commit = match clean_optional_text(req.commit_sha) {
            Some(c) => c,
            None => return Err(ApiError::bad_request("completed GitOps delivery requires commit_sha")),
        };
        let url = match clean_optional_text(req.pull_request_url) {
            Some(u) => u,
            None => return Err(ApiError::bad_request("completed GitOps delivery requires pull_request_url")),
        };
        let number = match req.pull_request_number {
            Some(n) => n,
            None => return Err(ApiError::bad_request("completed GitOps delivery requires pull_request_number")),
        };
        let source = match gitops_delivery_plan_source(plan, change_set) {
            Ok(s) => s,
            Err(e) => return Err(e),
        };
        if !str_eq(branch.as_str(), source.head_branch.as_str()) || !is_git_sha(commit.as_str()) || !url_recognized {
            return Err(ApiError::conflict("GitOps delivery outcome does not match immutable branch or GitHub provenance"));
        }
        let repo = trim_end_matches(trim_start_matches(source.repository.as_str(), "https://github.com/"), ".git");
        let prefix = String::from_str("https://github.com/").concat(repo).concat("/pull/");
        let number_text = decimal_u128(number as u128);
        if !starts_with_str(url.as_str(), prefix.as_str()) || !ends_with_str(url.as_str(), number_text.as_str()) {
            return Err(ApiError::conflict("GitOps pull request does not match immutable repository provenance"));
        }
        let mut e: Vec<(String, JsonValue)> = Vec::new();
        obj_insert(&mut e, "branch", JsonValue::Str(branch));
        obj_insert(&mut e, "commit_sha", JsonValue::Str(commit));
        obj_insert(&mut e, "pull_request_url", JsonValue::Str(url));
        obj_insert(&mut e, "pull_request_number", json_u64(number));
        proof {
            lemma_object_view(e);
            assert(entries_view(e@) =~= spec_delivery_details(
                spec_clean_optional_text(option_view(original.branch))->0,
                spec_clean_optional_text(option_view(original.commit_sha))->0,
                spec_clean_optional_text(option_view(original.pull_request_url))->0,
                number,
            )->Object_0);
            assert(prefix@ == spec_pull_prefix(change_set.gitops_repo@));
        }
        Ok((true, JsonValue::Object(e)))
    } else if str_eq(req.status.as_str(), "failed") {
        Ok((false, failure_details(req.error_code, "gitops_writer_failed")))
    } else {
        Err(ApiError::bad_request("GitOps delivery outcome status must be completed or failed"))
    }
}

/// A GitOps observer's report on a pull request.
pub struct ObservationOutcomeRequest {
    pub status: String,
    pub pull_request_state: Option<String>,
    pub merged: Option<bool>,
    pub head_branch: Option<String>,
    pub head_commit_sha: Option<String>,
    pub merge_commit_sha: Option<String>,
    pub error_code: Option<String>,
}

/// The identities an observation outcome belongs to.
pub struct ObservationIds {
    pub execution_id: String,
    pub change_set_id: String,
    pub plan_id: String,
}

pub open spec fn spec_observed_content(ids: ObservationIds, state: Seq<char>, merged: bool, branch: Seq<char>, commit: Seq<char>, merge: Option<Seq<char>>) -> Json {
    Json::Object(
        seq![
            ("execution_id"@, Json::Str(ids.execution_id@)),
            ("status"@, Json::Str("observed"@)),
            ("gitops_change_set_id"@, Json::Str(ids.change_set_id@)),
            ("gitops_delivery_plan_artifact_id"@, Json::Str(ids.plan_id@)),
            ("pull_request_state"@, Json::Str(state)),
            ("merged"@, Json::Bool(merged)),
            ("head_branch"@, Json::Str(branch)),
            ("head_commit_sha"@, Json::Str(commit)),
            ("merge_commit_sha"@, opt_json_str(merge)),
        ],
    )
}

pub open spec fn or_null(v: Option<Json>) -> Json {
    match v {
        Some(j) => j,
        None => Json::Null,
    }
}

pub open spec fn spec_merge_content(ids: ObservationIds, expected: Json, commit: Seq<char>, merge: Seq<char>) -> Json {
    Json::Object(
        seq![
            ("execution_id"@, Json::Str(ids.execution_id@)),
            ("gitops_change_set_id"@, Json::Str(ids.change_set_id@)),
            ("gitops_delivery_plan_artifact_id"@, Json::Str(ids.plan_id@)),
            ("pull_request_url"@, or_null(expected.get("pull_request_url"@))),
            ("pull_request_number"@, or_null(expected.get("pull_request_number"@))),
            ("head_commit_sha"@, Json::Str(commit)),
            ("merge_commit_sha"@, Json::Str(merge)),
        ],
    )
}

pub open spec fn spec_failed_observation(ids: ObservationIds, code: Option<Seq<char>>) -> Json {
    Json::Object(
        seq![
            ("execution_id"@, Json::Str(ids.execution_id@)),
            ("status"@, Json::Str("failed"@)),
            ("gitops_change_set_id"@, Json::Str(ids.change_set_id@)),
            ("gitops_delivery_plan_artifact_id"@, Json::Str(ids.plan_id@)),
            ("error_code"@, Json::Str(match spec_clean_optional_text(code) {
                Some(c) => c,
                None => "gitops_observer_failed"@,
            })),
        ],
    )
}

/// The records an observer's outcome leaves (the observation, and a merge
/// record when the pull request merged), or the refusal's class and message.
/// `execution` is the content of the observation execution.
pub open spec fn spec_observation_outcome(req: ObservationOutcomeRequest, ids: ObservationIds, execution: Option<Json>) -> Result<(Json, Option<Json>), (ErrorKind, Seq<char>)> {
    match member_object(or_null(execution), "source"@) {
        None => Err((ErrorKind::Conflict, "GitOps observation execution has no source provenance"@)),
        Some(expected) => if req.status@ == "observed"@ {
            let state = spec_clean_optional_text(option_view(req.pull_request_state));
            let branch = spec_clean_optional_text(option_view(req.head_branch));
            let commit = spec_clean_optional_text(option_view(req.head_commit_sha));
            let merge = spec_clean_optional_text(option_view(req.merge_commit_sha));
            if state is None {
                Err((ErrorKind::BadRequest, "observed GitOps outcome requires pull_request_state"@))
            } else if req.merged is None {
                Err((ErrorKind::BadRequest, "observed GitOps outcome requires merged"@))
            } else if branch is None {
                Err((ErrorKind::BadRequest, "observed GitOps outcome requires head_branch"@))
            } else if commit is None {
                Err((ErrorKind::BadRequest, "observed GitOps outcome requires head_commit_sha"@))
            } else if !(state->0 == "open"@ || state->0 == "closed"@) || !spec_is_git_sha(encode_utf8(commit->0))
                || str_member(expected, "head_branch"@) != branch || str_member(expected, "source_commit_sha"@) != commit {
                Err((ErrorKind::Conflict, "GitOps observation does not match the delivered branch commit"@))
            } else if req.merged->0 && (state->0 != "closed"@ || !(merge matches Some(m) && spec_is_git_sha(encode_utf8(m)))) {
                Err((ErrorKind::BadRequest, "merged GitOps outcome has invalid merge provenance"@))
            } else if !req.merged->0 && merge is Some {
                Err((ErrorKind::BadRequest, "unmerged GitOps outcome must not include merge_commit_sha"@))
            } else {
                Ok((
                    spec_observed_content(ids, state->0, req.merged->0, branch->0, commit->0, merge),
                    match merge {
                        Some(m) => Some(spec_merge_content(ids, expected, commit->0, m)),
                        None => None,
                    },
                ))
            }
        } else if req.status@ == "failed"@ {
            Ok((spec_failed_observation(ids, option_view(req.error_code)), None))
        } else {
            Err((ErrorKind::BadRequest, "GitOps observation outcome status must be observed or failed"@))
        },
    }
}

fn member_or_null(v: &JsonValue, key: &str) -> (r: JsonValue)
    ensures
        r@ == or_null(v@.get(key@)),
{
    match v.get(key) {
        Some(m) => m.duplicate(),
        None => JsonValue::Null,
    }
}

fn observed_content(ids: &ObservationIds, state: &str, merged: bool, branch: &str, commit: &str, merge: Option<&str>) -> (r: JsonValue)
    ensures
        r@ == spec_observed_content(*ids, state@, merged, branch@, commit@, crate::text::opt_str_view(merge)),
{
    let mut e: Vec<(String, JsonValue)> = Vec::new();
    obj_insert(&mut e, "execution_id", json_str(ids.execution_id.as_str()));
    obj_insert(&mut e, "status", json_str("observed"));
    obj_insert(&mut e, "gitops_change_set_id", json_str(ids.change_set_id.as_str()));
    obj_insert(&mut e, "gitops_delivery_plan_artifact_id", json_str(ids.plan_id.as_str()));
    obj_insert(&mut e, "pull_request_state", json_str(state));
    obj_insert(&mut e, "merged", JsonValue::Bool(merged));
    obj_insert(&mut e, "head_branch", json_str(branch));
    obj_insert(&mut e, "head_commit_sha", json_str(commit));
    obj_insert(&mut e, "merge_commit_sha", json_opt_str(merge));
    proof {
        lemma_object_view(e);
        assert(entries_view(e@) =~= spec_observed_content(*ids, state@, merged, branch@, commit@, crate::text::opt_str_view(merge))->Object_0);
    }
    JsonValue::Object(e)
}

fn merge_content(ids: &ObservationIds, expected: &JsonValue, commit: &str, merge: &str) -> (r: JsonValue)
    ensures
        r@ == spec_merge_content(*ids, expected@, commit@, merge@),
{
    let mut e: Vec<(String, JsonValue)> = Vec::new();
    obj_insert(&mut e, "execution_id", json_str(ids.execution_id.as_str()));
    obj_insert(&mut e, "gitops_change_set_id", json_str(ids.change_set_id.as_str()));
    obj_insert(&mut e, "gitops_delivery_plan_artifact_id", json_str(ids.plan_id.as_str()));
    obj_insert(&mut e, "pull_request_url", member_or_null(expected, "pull_request_url"));
    obj_insert(&mut e, "pull_request_number", member_or_null(expected, "pull_request_number"));
    obj_insert(&mut e, "head_commit_sha", json_str(commit));
    obj_insert(&mut e, "merge_commit_sha", json_str(merge));
    proof {
        lemma_object_view(e);
        assert(entries_view(e@) =~= spec_merge_content(*ids, expected@, commit@, merge@)->Object_0);
    }
    JsonValue::Object(e)
}

fn failed_observation(ids: &ObservationIds, code: Option<String>) -> (r: JsonValue)
    ensures
        r@ == spec_failed_observation(*ids, option_view(code)),
{
    let text = match clean_optional_text(code) {
        Some(c) => c,
        None => String::from_str("gitops_observer_failed"),
    };
    let mut e: Vec<(String, JsonValue)> = Vec::new();
    obj_insert(&mut e, "execution_id", json_str(ids.execution_id.as_str()));
    obj_insert(&mut e, "status", json_str("failed"));
    obj_insert(&mut e, "gitops_change_set_id", json_str(ids.change_set_id.as_str()));
    obj_insert(&mut e, "gitops_delivery_plan_artifact_id", json_str(ids.plan_id.as_str()));
    obj_insert(&mut e, "error_code", JsonValue::Str(text));
    proof {
        lemma_object_view(e);
        assert(entries_view(e@) =~= spec_failed_observation(*ids, option_view(code))->Object_0);
    }
    JsonValue::Object(e)
}

/// Check an observer's outcome against the observation execution and build
/// the records it leaves.
pub fn observation_outcome_records(
    req: ObservationOutcomeRequest,
    ids: &ObservationIds,
    execution: Option<&JsonValue>,
) -> (r: Result<(JsonValue, Option<JsonValue>), ApiError>)
    ensures
        match r {
            Ok((obs, merge)) => spec_observation_outcome(req, *ids, opt_json_view(execution)) == Ok::<(Json, Option<Json>), (ErrorKind, Seq<char>)>((
                obs@,
                match merge {
                    Some(m) => Some(m@),
                    None => None,
                },
            )),
            Err(e) => spec_observation_outcome(req, *ids, opt_json_view(execution)) == Err::<(Json, Option<Json>), (ErrorKind, Seq<char>)>((e.kind, e.message@)),
        },
{
    let expected = match execution {
        Some(c) => match c.get("source") {
            Some(s) => if s.is_object() {
                s
            } else {
                return Err(ApiError::conflict("GitOps observation execution has no source provenance"));
            },
            None => return Err(ApiError::conflict("GitOps observation execution has no source provenance")),
        },
        None => return Err(ApiError::conflict("GitOps observation execution has no source provenance")),
    };
    if str_eq(req.status.as_str(), "observed") {
        let state = match clean_optional_text(req.pull_request_state) {
            Some(s) => s,
            None => return Err(ApiError::bad_request("observed GitOps outcome requires pull_request_state")),
        };
        let merged = match req.merged {
            Some(m) => m,
            None => return Err(ApiError::bad_request("observed GitOps outcome requires merged")),
        };
        let branch = match clean_optional_text(req.head_branch) {
            Some(b) => b,
            None => return Err(ApiError::bad_request("observed GitOps outcome requires head_branch")),
        };
        let commit = match clean_optional_text(req.head_commit_sha) {
            Some(c) => c,
            None => return Err(ApiError::bad_request("observed GitOps outcome requires head_commit_sha")),
        };
        let branch_ok = match get_str(expected, "head_branch") {
            Some(b) => str_eq(b, branch.as_str()),
            None => false,
        };
        let commit_ok = match get_str(expected, "source_commit_sha") {
            Some(c) => str_eq(c, commit.as_str()),
            None => false,
        };
        if !(str_eq(state.as_str(), "open") || str_eq(state.as_str(), "closed")) || !is_git_sha(commit.as_str()) || !branch_ok || !commit_ok {
            return Err(ApiError::conflict("GitOps observation does not match the delivered branch commit"));
        }
        let merge = clean_optional_text(req.merge_commit_sha);
        let merge_valid = match &merge {
            Some(m) => is_git_sha(m.as_str()),
            None => false,
        };
        if merged && (!str_eq(state.as_str(), "closed") || !merge_valid) {
            return Err(ApiError::bad_request("merged GitOps outcome has invalid merge provenance"));
        }
        if !merged && merge.is_some() {
            return Err(ApiError::bad_request("unmerged GitOps outcome must not include merge_commit_sha"));
        }
        let merge_ref = match &merge {
            Some(m) => Some(m.as_str()),
            None => None,
        };
        let obs = observed_content(ids, state.as_str(), merged, branch.as_str(), commit.as_str(), merge_ref);
        let merge_record = match merge_ref {
            Some(m) => Some(merge_content(ids, expected, commit.as_str(), m)),
            None => None,
        };
        Ok((obs, merge_record))
    } else if str_eq(req.status.as_str(), "failed") {
        Ok((failed_observation(ids, req.error_code), None))
    } else {
        Err(ApiError::bad_request("GitOps observation outcome status must be observed or failed"))
    }
}

/// A merge is recorded only for an observed, closed pull request that
/// merged with a full merge commit id; an unmerged observation records none.
pub proof fn lemma_merge_recorded_only_for_merged_pull_requests(
    req: ObservationOutcomeRequest,
    ids: ObservationIds,
    execution: Option<Json>,
)
    requires
        spec_observation_outcome(req, ids, execution) is Ok,
    ensures
        (spec_observation_outcome(req, ids, execution)->Ok_0.1 is Some) <==> (req.status@ == "observed"@ && req.merged == Some(true)),
        spec_observation_outcome(req, ids, execution)->Ok_0.1 is Some ==> {
            &&& spec_clean_optional_text(option_view(req.pull_request_state)) == Some("closed"@)
            &&& spec_clean_optional_text(option_view(req.merge_commit_sha)) matches Some(m) && spec_is_git_sha(encode_utf8(m))
        },
{
    reveal_strlit("observed");
    reveal_strlit("failed");
    assert("observed"@[0] != "failed"@[0]);
}

} // verus!
