//! The GitHub observation that proves an admitted staging write: exactly one
//! file changed to the approved image digest on top of the planned base.
use vstd::prelude::*;
use vstd::utf8::encode_utf8;
use vstd::string::*;
use crate::error::{ApiError, ErrorKind};
use crate::artifacts::StoredArtifact;
use crate::hosted_controller::build_stage::{at, at_exec};
use crate::json::{
    bool_member, entries_view, get_bool, get_i64, get_str, get_u64, i64_member, json_equal, path_view, str_member,
    u64_member, Json, JsonValue,
};
use crate::text::opt_str_view;
use crate::text::str_eq;
use crate::validation::{is_git_sha, spec_is_git_sha};

verus! {

broadcast use vstd::std_specs::vec::group_vec_axioms;

/// What an observation must match: the saved plan and the authority.
pub struct ObservationExpectation {
    pub plan_base_commit_sha: String,
    pub plan_original_blob_sha: String,
    pub plan_authority_hash: String,
    pub plan_hash: String,
    /// The GitOps file the authority points at.
    pub path: String,
    pub image_ref: String,
    pub authority_created_at_ms: i64,
}

/// The members an observation consists of, no more and no fewer.
pub open spec fn is_observation_field(k: Seq<char>) -> bool {
    ||| k == "gitops_commit_sha"@
    ||| k == "base_commit_sha"@
    ||| k == "current_gitops_revision"@
    ||| k == "file_blob_sha"@
    ||| k == "path"@
    ||| k == "image_ref"@
    ||| k == "authority_hash"@
    ||| k == "plan_hash"@
    ||| k == "parent_count"@
    ||| k == "changed_file_count"@
    ||| k == "current_file_matches"@
    ||| k == "observation_attempts"@
}

/// An object of exactly twelve members, each one of the observation fields.
pub open spec fn has_exact_fields(o: Json) -> bool {
    o matches Json::Object(es) && es.len() == 12 && forall|i: int|
        0 <= i < es.len() ==> is_observation_field(#[trigger] es[i].0)
}

pub open spec fn sha_member(o: Json, key: Seq<char>) -> bool {
    str_member(o, key) matches Some(v) && spec_is_git_sha(encode_utf8(v))
}

/// The observation proves the admitted one-file digest change, checked at
/// `checked` no later than thirty seconds after `now`.
pub open spec fn observation_proves_change(o: Json, x: ObservationExpectation, checked: i64, now: i64) -> bool {
    &&& has_exact_fields(o)
    &&& sha_member(o, "gitops_commit_sha"@)
    &&& sha_member(o, "current_gitops_revision"@)
    &&& sha_member(o, "file_blob_sha"@)
    &&& str_member(o, "gitops_commit_sha"@) != Some(x.plan_base_commit_sha@)
    &&& str_member(o, "file_blob_sha"@) != Some(x.plan_original_blob_sha@)
    &&& str_member(o, "base_commit_sha"@) == Some(x.plan_base_commit_sha@)
    &&& str_member(o, "authority_hash"@) == Some(x.plan_authority_hash@)
    &&& str_member(o, "plan_hash"@) == Some(x.plan_hash@)
    &&& str_member(o, "path"@) == Some(x.path@)
    &&& str_member(o, "image_ref"@) == Some(x.image_ref@)
    &&& i64_member(o, "parent_count"@) == Some(1int)
    &&& i64_member(o, "changed_file_count"@) == Some(1int)
    &&& bool_member(o, "current_file_matches"@) == Some(true)
    &&& u64_member(o, "observation_attempts"@) matches Some(n) && 1 <= n <= 12
    &&& checked >= x.authority_created_at_ms
    &&& checked <= now + 30000
}

/// Members that may change between independent observations.
pub open spec fn is_volatile(k: Seq<char>) -> bool {
    k == "current_gitops_revision"@ || k == "observation_attempts"@
}

/// The entries without the volatile members, in order.
pub open spec fn stable_entries(es: Seq<(Seq<char>, Json)>) -> Seq<(Seq<char>, Json)>
    decreases es.len(),
{
    if es.len() == 0 {
        Seq::empty()
    } else if is_volatile(es.last().0) {
        stable_entries(es.drop_last())
    } else {
        stable_entries(es.drop_last()).push(es.last())
    }
}

/// The identity of an observation: everything but the volatile members.
pub open spec fn observation_identity(o: Json) -> Json {
    match o {
        Json::Object(es) => Json::Object(stable_entries(es)),
        _ => o,
    }
}

fn exact_fields(o: &JsonValue) -> (r: bool)
    ensures
        r == has_exact_fields(o@),
{
    match o {
        JsonValue::Object(entries) => {
            proof {
                crate::json::lemma_object_view(*entries);
            }
            if entries.len() != 12 {
                return false;
            }
            let ghost es = entries_view(entries@);
            let mut i: usize = 0;
            while i < entries.len()
                invariant
                    es == entries_view(entries@),
                    o@ == Json::Object(es),
                    entries@.len() == 12,
                    i <= entries@.len(),
                    forall|j: int| 0 <= j < i ==> is_observation_field(#[trigger] es[j].0),
                decreases entries@.len() - i,
            {
                let k = entries[i].0.as_str();
                let known = str_eq(k, "gitops_commit_sha") || str_eq(k, "base_commit_sha") || str_eq(
                    k,
                    "current_gitops_revision",
                ) || str_eq(k, "file_blob_sha") || str_eq(k, "path") || str_eq(k, "image_ref") || str_eq(
                    k,
                    "authority_hash",
                ) || str_eq(k, "plan_hash") || str_eq(k, "parent_count") || str_eq(k, "changed_file_count")
                    || str_eq(k, "current_file_matches") || str_eq(k, "observation_attempts");
                proof {
                    assert(es[i as int].0 == k@);
                    assert(known == is_observation_field(es[i as int].0));
                }
                if !known {
                    return false;
                }
                i = i + 1;
            }
            true
        },
        _ => false,
    }
}

fn sha_at(o: &JsonValue, key: &str) -> (r: bool)
    ensures
        r == sha_member(o@, key@),
{
    match get_str(o, key) {
        Some(v) => is_git_sha(v),
        None => false,
    }
}

fn str_at_is(o: &JsonValue, key: &str, expected: &str) -> (r: bool)
    ensures
        r == (str_member(o@, key@) == Some(expected@)),
{
    match get_str(o, key) {
        Some(v) => str_eq(v, expected),
        None => false,
    }
}

fn identity_of(o: &JsonValue) -> (r: JsonValue)
    ensures
        r@ == observation_identity(o@),
{
    match o {
        JsonValue::Object(entries) => {
            proof {
                crate::json::lemma_object_view(*entries);
            }
            let ghost es = entries_view(entries@);
            let mut out: Vec<(String, JsonValue)> = Vec::new();
            let mut i: usize = 0;
            while i < entries.len()
                invariant
                    es == entries_view(entries@),
                    i <= entries@.len(),
                    entries_view(out@) == stable_entries(es.subrange(0, i as int)),
                decreases entries@.len() - i,
            {
                let k = entries[i].0.as_str();
                proof {
                    assert(es.subrange(0, i + 1).drop_last() =~= es.subrange(0, i as int));
                    assert(es.subrange(0, i + 1).last() == es[i as int]);
                    assert(es[i as int] == (entries@[i as int].0@, entries@[i as int].1@));
                }
                if !(str_eq(k, "current_gitops_revision") || str_eq(k, "observation_attempts")) {
                    let ghost before = out@;
                    let v = entries[i].1.duplicate();
                    out.push((k.to_owned(), v));
                    proof {
                        assert(entries_view(out@) =~= entries_view(before).push(es[i as int]));
                    }
                }
                i = i + 1;
            }
            proof {
                assert(es.subrange(0, i as int) =~= es);
                crate::json::lemma_object_view(out);
            }
            JsonValue::Object(out)
        },
        _ => o.duplicate(),
    }
}

/// Check an observation of a staging write against the plan and authority it
/// claims, and return its identity: the observation without the members a
/// later, independent observation may see differently.
pub fn validate_observation(o: &JsonValue, x: &ObservationExpectation, checked: i64, now: i64) -> (r: Result<JsonValue, ApiError>)
    ensures
        match r {
            Ok(identity) => observation_proves_change(o@, *x, checked, now) && identity@ == observation_identity(o@),
            Err(e) => !observation_proves_change(o@, *x, checked, now) && e.kind == ErrorKind::Conflict
                && e.message@ == "staging observation does not prove the admitted one-file digest change"@,
        },
{
    let attempts_ok = match get_u64(o, "observation_attempts") {
        Some(n) => 1 <= n && n <= 12,
        None => false,
    };
    let late = (checked as i128) > (now as i128) + 30000;
    let ok = exact_fields(o) && sha_at(o, "gitops_commit_sha") && sha_at(o, "current_gitops_revision") && sha_at(
        o,
        "file_blob_sha",
    ) && !str_at_is(o, "gitops_commit_sha", x.plan_base_commit_sha.as_str()) && !str_at_is(
        o,
        "file_blob_sha",
        x.plan_original_blob_sha.as_str(),
    ) && str_at_is(o, "base_commit_sha", x.plan_base_commit_sha.as_str()) && str_at_is(
        o,
        "authority_hash",
        x.plan_authority_hash.as_str(),
    ) && str_at_is(o, "plan_hash", x.plan_hash.as_str()) && str_at_is(o, "path", x.path.as_str()) && str_at_is(
        o,
        "image_ref",
        x.image_ref.as_str(),
    ) && get_i64(o, "parent_count") == Some(1i64) && get_i64(o, "changed_file_count") == Some(1i64) && get_bool(
        o,
        "current_file_matches",
    ) == Some(true) && attempts_ok && checked >= x.authority_created_at_ms && !late;
    if !ok {
        return Err(ApiError::conflict("staging observation does not prove the admitted one-file digest change"));
    }
    Ok(identity_of(o))
}

/// Where a build's evidence is recorded: the pipeline intent's id, session,
/// run and document, and the session of each of the two artifacts.
pub struct BuildEvidenceOwner {
    pub intent_id: String,
    pub intent_session_id: String,
    pub intent_run_id: Option<String>,
    pub intent_json: JsonValue,
    pub terminal_session_id: String,
    pub output_session_id: String,
}

pub open spec fn text_json(t: Seq<char>) -> Json {
    Json::Str(t)
}

pub open spec fn text_or_empty(v: Json) -> Seq<char> {
    match v {
        Json::Str(t) => t,
        _ => Seq::empty(),
    }
}

pub open spec fn declared_path(name: Seq<char>) -> Seq<Seq<char>> {
    seq!["analysis"@, "outputs"@, "declared_results"@, name]
}

/// Both artifacts have the expected kinds and belong to the intent's
/// session and run.
pub open spec fn records_agree(w: BuildEvidenceOwner, terminal: StoredArtifact, output: StoredArtifact) -> bool {
    &&& terminal.kind@ == "hosted_build_observation"@
    &&& output.kind@ == "pipeline_build_output"@
    &&& w.terminal_session_id@ == w.intent_session_id@
    &&& w.output_session_id@ == w.intent_session_id@
    &&& opt_text_of(terminal.run_id) == opt_text_of(w.intent_run_id)
    &&& opt_text_of(output.run_id) == opt_text_of(w.intent_run_id)
}

/// Receipt, output and dispatch name the intent's execution, its manifest
/// and its PipelineRun.
pub open spec fn execution_agrees(intent: Json, intent_id: Seq<char>, t: Json, o: Json, refs: Json) -> bool {
    let execution = at(intent, seq!["execution_state"@, "execution_id"@]);
    &&& at(t, seq!["execution_id"@]) == execution
    &&& at(o, seq!["execution_id"@]) == execution
    &&& at(t, seq!["status"@]) == text_json("completed"@)
    &&& at(o, seq!["status"@]) == text_json("verified"@)
    &&& at(o, seq!["pipeline_intent_id"@]) == text_json(intent_id)
    &&& at(refs, seq!["build_dispatch"@, "execution_id"@]) == execution
    &&& at(refs, seq!["build_result"@, "terminal_artifact_id"@]) == text_json("build_terminal_"@ + text_or_empty(execution))
    &&& at(t, seq!["manifest_hash"@]) == at(refs, seq!["build_dispatch"@, "manifest_hash"@])
    &&& at(t, seq!["pipeline_run_uid"@]) == at(intent, seq!["execution_state"@, "pipeline_run_uid"@])
    &&& at(t, seq!["pipeline_run_uid"@]) matches Json::Str(uid) && uid.len() > 0
}

/// The declared source commit is the merged source everywhere.
pub open spec fn source_agrees(intent: Json, t: Json, o: Json) -> bool {
    let source = at(intent, seq!["source_provenance"@, "merge_commit_sha"@]);
    &&& at(t, declared_path("SOURCE_COMMIT"@)) == source
    &&& at(o, seq!["source"@, "commit"@]) == source
    &&& at(o, seq!["source"@, "expected_merge_commit"@]) == source
}

/// The declared image is the built one, tagged after the merged source.
pub open spec fn image_agrees(intent: Json, t: Json, o: Json, image_name: Seq<char>) -> bool {
    let source = at(intent, seq!["source_provenance"@, "merge_commit_sha"@]);
    &&& at(t, declared_path("IMAGE_DIGEST"@)) == at(intent, seq!["build_output"@, "image_digest"@])
    &&& at(t, declared_path("IMAGE_DIGEST"@)) == at(o, seq!["image"@, "digest"@])
    &&& at(t, declared_path("IMAGE_URL"@)) == at(o, seq!["image"@, "url"@])
    &&& at(t, declared_path("IMAGE_URL"@)) == text_json(image_name + ":git-"@ + text_or_empty(source))
}

/// The terminal build receipt, the verified build output and the pipeline
/// intent agree on the execution, the merged source and the image.
pub open spec fn build_evidence_agrees(
    w: BuildEvidenceOwner,
    terminal: StoredArtifact,
    t: Json,
    output: StoredArtifact,
    o: Json,
    refs: Json,
    image_name: Seq<char>,
) -> bool {
    &&& records_agree(w, terminal, output)
    &&& execution_agrees(w.intent_json@, w.intent_id@, t, o, refs)
    &&& source_agrees(w.intent_json@, t, o)
    &&& image_agrees(w.intent_json@, t, o, image_name)
}

pub open spec fn opt_text_of(o: Option<String>) -> Option<Seq<char>> {
    match o {
        Some(s) => Some(s@),
        None => None,
    }
}

/// The refusal owed for the build evidence staging starts from, if any.
pub open spec fn build_evidence_refusal(
    w: BuildEvidenceOwner,
    terminal: StoredArtifact,
    output: StoredArtifact,
    refs: Json,
    image_name: Seq<char>,
) -> Option<Seq<char>> {
    match (terminal.content_json, output.content_json) {
        (None, _) => Some("build receipt has no content"@),
        (Some(_), None) => Some("build output has no content"@),
        (Some(t), Some(o)) => if build_evidence_agrees(w, terminal, t@, output, o@, refs, image_name) {
            None
        } else {
            Some("staging build receipt, declared source and image digest disagree"@)
        },
    }
}

fn opt_string_eq(a: &Option<String>, b: &Option<String>) -> (r: bool)
    ensures
        r == (opt_text_of(*a) == opt_text_of(*b)),
{
    match (a, b) {
        (Some(x), Some(y)) => str_eq(x.as_str(), y.as_str()),
        (None, None) => true,
        _ => false,
    }
}

fn same_at(a: &JsonValue, pa: &[&str], b: &JsonValue, pb: &[&str]) -> (r: bool)
    ensures
        r == (at(a@, path_view(pa@)) == at(b@, path_view(pb@))),
{
    json_equal(&at_exec(a, pa), &at_exec(b, pb))
}

fn text_at(a: &JsonValue, pa: &[&str], expected: &str) -> (r: bool)
    ensures
        r == (at(a@, path_view(pa@)) == text_json(expected@)),
{
    match at_exec(a, pa) {
        JsonValue::Str(t) => str_eq(t.as_str(), expected),
        _ => false,
    }
}

/// `v[key]`, `null` when missing.
fn member_or_null(v: &JsonValue, key: &str) -> (r: JsonValue)
    ensures
        r@ == at(v@, seq![key@]),
{
    let m = v.get(key);
    proof {
        let p = seq![key@];
        assert(p.drop_first() =~= Seq::<Seq<char>>::empty());
        assert(p[0] == key@);
        match v@.get(key@) {
            Some(c) => {
                assert(c.pointer(p.drop_first()) == Some(c));
            },
            None => {},
        }
    }
    match m {
        Some(x) => x.duplicate(),
        None => crate::hosted_controller::build_stage::null_json(),
    }
}

fn member_text_is(v: &JsonValue, key: &str, expected: &str) -> (r: bool)
    ensures
        r == (at(v@, seq![key@]) == text_json(expected@)),
{
    match member_or_null(v, key) {
        JsonValue::Str(t) => str_eq(t.as_str(), expected),
        _ => false,
    }
}

fn records_check(w: &BuildEvidenceOwner, terminal: &StoredArtifact, output: &StoredArtifact) -> (r: bool)
    ensures
        r == records_agree(*w, *terminal, *output),
{
    str_eq(terminal.kind.as_str(), "hosted_build_observation") && str_eq(output.kind.as_str(), "pipeline_build_output")
        && str_eq(w.terminal_session_id.as_str(), w.intent_session_id.as_str()) && str_eq(
        w.output_session_id.as_str(),
        w.intent_session_id.as_str(),
    ) && opt_string_eq(&terminal.run_id, &w.intent_run_id) && opt_string_eq(&output.run_id, &w.intent_run_id)
}

fn execution_check(intent: &JsonValue, intent_id: &str, t: &JsonValue, o: &JsonValue, refs: &JsonValue) -> (r: bool)
    ensures
        r == execution_agrees(intent@, intent_id@, t@, o@, refs@),
{
    proof {
        reveal_strlit("execution_state");
        reveal_strlit("execution_id");
        reveal_strlit("status");
        reveal_strlit("pipeline_intent_id");
        reveal_strlit("build_dispatch");
        reveal_strlit("build_result");
        reveal_strlit("terminal_artifact_id");
        reveal_strlit("manifest_hash");
        reveal_strlit("pipeline_run_uid");
        assert(path_view(seq!["execution_state", "execution_id"]) =~= seq!["execution_state"@, "execution_id"@]);
        assert(path_view(seq!["execution_id"]) =~= seq!["execution_id"@]);
        assert(path_view(seq!["status"]) =~= seq!["status"@]);
        assert(path_view(seq!["pipeline_intent_id"]) =~= seq!["pipeline_intent_id"@]);
        assert(path_view(seq!["build_dispatch", "execution_id"]) =~= seq!["build_dispatch"@, "execution_id"@]);
        assert(path_view(seq!["build_result", "terminal_artifact_id"]) =~= seq!["build_result"@, "terminal_artifact_id"@]);
        assert(path_view(seq!["manifest_hash"]) =~= seq!["manifest_hash"@]);
        assert(path_view(seq!["build_dispatch", "manifest_hash"]) =~= seq!["build_dispatch"@, "manifest_hash"@]);
        assert(path_view(seq!["pipeline_run_uid"]) =~= seq!["pipeline_run_uid"@]);
        assert(path_view(seq!["execution_state", "pipeline_run_uid"]) =~= seq!["execution_state"@, "pipeline_run_uid"@]);
    }
    let execution = at_exec(intent, &["execution_state", "execution_id"]);
    let empty = String::new();
    let execution_text = match &execution {
        JsonValue::Str(e) => e.as_str(),
        _ => empty.as_str(),
    };
    proof {
        assert(execution_text@ == text_or_empty(execution@));
    }
    let terminal_id = String::from_str("build_terminal_").concat(execution_text);
    let uid = member_or_null(t, "pipeline_run_uid");
    let uid_present = match &uid {
        JsonValue::Str(u) => u.as_str().unicode_len() > 0,
        _ => false,
    };
    let a1 = json_equal(&member_or_null(t, "execution_id"), &execution);
    let a2 = json_equal(&member_or_null(o, "execution_id"), &execution);
    let a3 = member_text_is(t, "status", "completed");
    let a4 = member_text_is(o, "status", "verified");
    let a5 = member_text_is(o, "pipeline_intent_id", intent_id);
    let a6 = json_equal(&at_exec(refs, &["build_dispatch", "execution_id"]), &execution);
    let a7 = text_at(refs, &["build_result", "terminal_artifact_id"], terminal_id.as_str());
    let a8 = json_equal(&member_or_null(t, "manifest_hash"), &at_exec(refs, &["build_dispatch", "manifest_hash"]));
    let a9 = json_equal(&uid, &at_exec(intent, &["execution_state", "pipeline_run_uid"]));
    a1 && a2 && a3 && a4 && a5 && a6 && a7 && a8 && a9 && uid_present
}

fn source_check(intent: &JsonValue, t: &JsonValue, o: &JsonValue) -> (r: bool)
    ensures
        r == source_agrees(intent@, t@, o@),
{
    proof {
        reveal_strlit("source_provenance");
        reveal_strlit("merge_commit_sha");
        reveal_strlit("analysis");
        reveal_strlit("outputs");
        reveal_strlit("declared_results");
        reveal_strlit("SOURCE_COMMIT");
        reveal_strlit("source");
        reveal_strlit("commit");
        reveal_strlit("expected_merge_commit");
        assert(path_view(seq!["analysis", "outputs", "declared_results", "SOURCE_COMMIT"]) =~= declared_path("SOURCE_COMMIT"@));
        assert(path_view(seq!["source_provenance", "merge_commit_sha"]) =~= seq!["source_provenance"@, "merge_commit_sha"@]);
        assert(path_view(seq!["source", "commit"]) =~= seq!["source"@, "commit"@]);
        assert(path_view(seq!["source", "expected_merge_commit"]) =~= seq!["source"@, "expected_merge_commit"@]);
    }
    let source = at_exec(intent, &["source_provenance", "merge_commit_sha"]);
    json_equal(&at_exec(t, &["analysis", "outputs", "declared_results", "SOURCE_COMMIT"]), &source) && json_equal(
        &at_exec(o, &["source", "commit"]),
        &source,
    ) && json_equal(&at_exec(o, &["source", "expected_merge_commit"]), &source)
}

fn image_check(intent: &JsonValue, t: &JsonValue, o: &JsonValue, image_name: &str) -> (r: bool)
    ensures
        r == image_agrees(intent@, t@, o@, image_name@),
{
    proof {
        reveal_strlit("source_provenance");
        reveal_strlit("merge_commit_sha");
        reveal_strlit("analysis");
        reveal_strlit("outputs");
        reveal_strlit("declared_results");
        reveal_strlit("IMAGE_DIGEST");
        reveal_strlit("IMAGE_URL");
        reveal_strlit("build_output");
        reveal_strlit("image_digest");
        reveal_strlit("image");
        reveal_strlit("digest");
        reveal_strlit("url");
        assert(path_view(seq!["analysis", "outputs", "declared_results", "IMAGE_DIGEST"]) =~= declared_path("IMAGE_DIGEST"@));
        assert(path_view(seq!["analysis", "outputs", "declared_results", "IMAGE_URL"]) =~= declared_path("IMAGE_URL"@));
        assert(path_view(seq!["source_provenance", "merge_commit_sha"]) =~= seq!["source_provenance"@, "merge_commit_sha"@]);
        assert(path_view(seq!["build_output", "image_digest"]) =~= seq!["build_output"@, "image_digest"@]);
        assert(path_view(seq!["image", "digest"]) =~= seq!["image"@, "digest"@]);
        assert(path_view(seq!["image", "url"]) =~= seq!["image"@, "url"@]);
    }
    let source = at_exec(intent, &["source_provenance", "merge_commit_sha"]);
    let empty = String::new();
    let source_text = match &source {
        JsonValue::Str(e) => e.as_str(),
        _ => empty.as_str(),
    };
    proof {
        assert(source_text@ == text_or_empty(source@));
    }
    let expected_url = String::from_str(image_name).concat(":git-").concat(source_text);
    same_at(t, &["analysis", "outputs", "declared_results", "IMAGE_DIGEST"], intent, &["build_output", "image_digest"])
        && same_at(t, &["analysis", "outputs", "declared_results", "IMAGE_DIGEST"], o, &["image", "digest"]) && same_at(
        t,
        &["analysis", "outputs", "declared_results", "IMAGE_URL"],
        o,
        &["image", "url"],
    ) && text_at(t, &["analysis", "outputs", "declared_results", "IMAGE_URL"], expected_url.as_str())
}

/// Check that the terminal build receipt, the verified build output and the
/// pipeline intent agree before staging builds on them.
pub fn check_build_evidence(
    w: &BuildEvidenceOwner,
    terminal: &StoredArtifact,
    output: &StoredArtifact,
    refs: &JsonValue,
    image_name: &str,
) -> (r: Result<(), ApiError>)
    ensures
        match r {
            Ok(()) => build_evidence_refusal(*w, *terminal, *output, refs@, image_name@) is None,
            Err(e) => e.kind == ErrorKind::Conflict && build_evidence_refusal(*w, *terminal, *output, refs@, image_name@)
                == Some(e.message@),
        },
{
    let t = match &terminal.content_json {
        Some(t) => t,
        None => return Err(ApiError::conflict("build receipt has no content")),
    };
    let o = match &output.content_json {
        Some(o) => o,
        None => return Err(ApiError::conflict("build output has no content")),
    };
    let ok = records_check(w, terminal, output) && execution_check(&w.intent_json, w.intent_id.as_str(), t, o, refs)
        && source_check(&w.intent_json, t, o) && image_check(&w.intent_json, t, o, image_name);
    if !ok {
        return Err(ApiError::conflict("staging build receipt, declared source and image digest disagree"));
    }
    Ok(())
}

} // verus!
