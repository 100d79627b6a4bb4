//! Identifiers and checks of the source-merge stage's records.
use vstd::prelude::*;
use vstd::string::*;
use vstd::utf8::encode_utf8;
use crate::error::{ApiError, ErrorKind};
use crate::json::{get_u64, items_view, u64_member, Json, JsonValue};
use crate::gitops_delivery::{contains_text, seq_contains_text};
use crate::text::{parse_i64, spec_parse_i64};
use crate::text::{opt_text, str_eq};
use crate::validation::{is_git_sha, is_snake_code, spec_is_git_sha, spec_is_snake_code};

verus! {

/// The artifact recording the merge worker's receipt for an execution.
pub fn receipt_id(execution_id: &str) -> (r: String)
    ensures
        r@ == "source_merge_receipt_"@ + execution_id@,
{
    String::from_str("source_merge_receipt_").concat(execution_id)
}

/// The artifact recording a merge attempt of an execution.
pub fn attempt_id(execution_id: &str) -> (r: String)
    ensures
        r@ == "source_merge_attempt_"@ + execution_id@,
{
    String::from_str("source_merge_attempt_").concat(execution_id)
}

/// A full lowercase hexadecimal commit id, as a receipt must name.
pub fn git_sha(value: &str) -> (r: bool)
    ensures
        r == spec_is_git_sha(value.spec_bytes()),
{
    is_git_sha(value)
}


/// Whether the merge attempt of an execution may be admitted: the request
/// carries the current authority hash and no attempt or receipt exists yet.
pub fn admit_merge_attempt(request_hash: &str, authority_hash: &str, attempt_recorded: bool, receipt_recorded: bool) -> (r: Result<(), ApiError>)
    ensures
        match r {
            Ok(()) => request_hash@ == authority_hash@ && !attempt_recorded && !receipt_recorded,
            Err(e) => e.kind == ErrorKind::Conflict && e.message@ == if request_hash@ != authority_hash@ {
                "source merge admission hash changed"@
            } else {
                "source merge was already admitted or has an outcome; observe GitHub without another merge attempt"@
            },
        },
{
    if !str_eq(request_hash, authority_hash) {
        return Err(ApiError::conflict("source merge admission hash changed"));
    }
    if attempt_recorded || receipt_recorded {
        return Err(ApiError::conflict("source merge was already admitted or has an outcome; observe GitHub without another merge attempt"));
    }
    Ok(())
}

/// What the merge worker reports about one execution.
pub struct MergeOutcome {
    pub execution_id: String,
    pub authority_hash: String,
    pub checked_at_ms: i64,
    pub status: String,
    pub error_code: Option<String>,
    pub merge_http_status: Option<u16>,
    pub merge_commit_sha: Option<String>,
    pub base_commit_sha: Option<String>,
    pub head_commit_sha: Option<String>,
    pub merge_tree_sha: Option<String>,
    pub origin: Option<String>,
    pub required_checks: Option<JsonValue>,
}

/// The approved merge an outcome must bind.
pub struct MergeAuthority {
    pub authority_hash: String,
    pub base_commit_sha: String,
    pub head_commit_sha: String,
    /// When the merge operation was recorded.
    pub operation_created_at: i64,
}

pub open spec fn opt_git_sha(o: Option<String>) -> bool {
    o matches Some(v) && spec_is_git_sha(encode_utf8(v@))
}

pub open spec fn outcome_identity_ok(o: MergeOutcome, a: MergeAuthority, now: i64) -> bool {
    &&& o.authority_hash@ == a.authority_hash@
    &&& (o.status@ == "merged"@ || o.status@ == "failed"@ || o.status@ == "unknown"@)
    &&& o.checked_at_ms >= a.operation_created_at
    &&& o.checked_at_ms <= now + 30000
    &&& (o.error_code matches Some(c) ==> spec_is_snake_code(encode_utf8(c@)))
}

/// A merged receipt binds the approved base and head, names the merge and
/// its tree, and says how the merge was learned.
pub open spec fn merged_receipt_ok(o: MergeOutcome, a: MergeAuthority) -> bool {
    &&& o.error_code is None
    &&& opt_text(o.base_commit_sha) == Some(a.base_commit_sha@)
    &&& opt_text(o.head_commit_sha) == Some(a.head_commit_sha@)
    &&& opt_git_sha(o.merge_commit_sha)
    &&& opt_git_sha(o.merge_tree_sha)
    &&& (opt_text(o.origin) == Some("api_acknowledged"@) || opt_text(o.origin) == Some("observed_existing_merge"@))
}

pub open spec fn has_receipt_fields(o: MergeOutcome) -> bool {
    o.origin is Some || o.merge_commit_sha is Some || o.base_commit_sha is Some || o.head_commit_sha is Some || o.merge_tree_sha is Some
}

/// The refusal owed for a merge outcome, if any.
pub open spec fn merge_outcome_refusal(o: MergeOutcome, a: MergeAuthority, now: i64, attempt_admitted: bool) -> Option<(ErrorKind, Seq<char>)> {
    if !outcome_identity_ok(o, a, now) {
        Some((ErrorKind::BadRequest, "invalid source merge outcome identity or bounded fields"@))
    } else if o.status@ == "merged"@ && !merged_receipt_ok(o, a) {
        Some((ErrorKind::Conflict, "source merge receipt does not bind the approved source and merge identity"@))
    } else if o.status@ != "merged"@ && has_receipt_fields(o) {
        Some((ErrorKind::BadRequest, "an unconfirmed source merge cannot contain a successful merge receipt"@))
    } else if opt_text(o.origin) == Some("api_acknowledged"@) && (!attempt_admitted || o.merge_http_status != Some(200u16)) {
        Some((ErrorKind::Conflict, "acknowledged source merge has no admitted attempt"@))
    } else {
        None
    }
}

fn opt_is(o: &Option<String>, expected: &str) -> (r: bool)
    ensures
        r == (opt_text(*o) == Some(expected@)),
{
    match o {
        Some(v) => str_eq(v.as_str(), expected),
        None => false,
    }
}

fn opt_sha(o: &Option<String>) -> (r: bool)
    ensures
        r == opt_git_sha(*o),
{
    match o {
        Some(v) => is_git_sha(v.as_str()),
        None => false,
    }
}

/// Check a merge worker's outcome against the approved merge it claims, at
/// time `now`, knowing whether a merge attempt was admitted.
pub fn check_merge_outcome(o: &MergeOutcome, a: &MergeAuthority, now: i64, attempt_admitted: bool) -> (r: Result<(), ApiError>)
    ensures
        match r {
            Ok(()) => merge_outcome_refusal(*o, *a, now, attempt_admitted) is None,
            Err(e) => merge_outcome_refusal(*o, *a, now, attempt_admitted) == Some((e.kind, e.message@)),
        },
{
    let status = o.status.as_str();
    let merged = str_eq(status, "merged");
    let known = merged || str_eq(status, "failed") || str_eq(status, "unknown");
    let code_ok = match &o.error_code {
        Some(c) => is_snake_code(c.as_str()),
        None => true,
    };
    let late = (o.checked_at_ms as i128) > (now as i128) + 30000;
    if !str_eq(o.authority_hash.as_str(), a.authority_hash.as_str()) || !known || o.checked_at_ms < a.operation_created_at
        || late || !code_ok {
        return Err(ApiError::bad_request("invalid source merge outcome identity or bounded fields"));
    }
    if merged && !(o.error_code.is_none() && opt_is(&o.base_commit_sha, a.base_commit_sha.as_str()) && opt_is(
        &o.head_commit_sha,
        a.head_commit_sha.as_str(),
    ) && opt_sha(&o.merge_commit_sha) && opt_sha(&o.merge_tree_sha) && (opt_is(&o.origin, "api_acknowledged")
        || opt_is(&o.origin, "observed_existing_merge"))) {
        return Err(ApiError::conflict("source merge receipt does not bind the approved source and merge identity"));
    }
    if !merged && (o.origin.is_some() || o.merge_commit_sha.is_some() || o.base_commit_sha.is_some()
        || o.head_commit_sha.is_some() || o.merge_tree_sha.is_some()) {
        return Err(ApiError::bad_request("an unconfirmed source merge cannot contain a successful merge receipt"));
    }
    let acknowledged = opt_is(&o.origin, "api_acknowledged");
    let http_ok = match o.merge_http_status {
        Some(code) => code == 200,
        None => false,
    };
    if acknowledged && (!attempt_admitted || !http_ok) {
        return Err(ApiError::conflict("acknowledged source merge has no admitted attempt"));
    }
    Ok(())
}

/// What the controller does about a running source merge.
pub enum MergeProgress {
    /// Nothing to record: a receipt exists, or an admitted attempt's Job is
    /// gone or finished and only provider observation remains.
    Observe,
    /// Record this controller condition.
    Report(String, String),
}

pub open spec fn spec_merge_progress(
    attempted: bool,
    job_status: Seq<char>,
    job_name: Seq<char>,
    control: Seq<char>,
    now: i64,
    expires_at_ms: i64,
) -> Option<(Seq<char>, Seq<char>)> {
    if attempted && (job_status == "missing"@ || job_status == "failed"@ || job_status == "succeeded"@) {
        None
    } else if job_status == "failed"@ || job_status == "succeeded"@ {
        Some(("blocked"@, "The source merge worker terminated before an attempt or receipt was recorded. Its identity is retained; it will not be rerun."@))
    } else {
        Some((
            if now >= expires_at_ms {
                "wait_expired"@
            } else if control != "active"@ {
                control
            } else {
                "waiting"@
            },
            "Source merge Job "@ + job_name + " is "@ + job_status + " under its original bounded authority."@,
        ))
    }
}

/// Whether the merge Job may be recreated: only before any attempt was
/// admitted, while the work is active and the authority has not expired.
pub fn may_recover_merge_job(attempted: bool, control: &str, now: i64, expires_at_ms: i64) -> (r: bool)
    ensures
        r == (!attempted && control@ == "active"@ && now < expires_at_ms),
{
    !attempted && str_eq(control, "active") && now < expires_at_ms
}

/// The condition a source merge reports once its Job was observed with
/// status `job_status`.
pub fn merge_progress(attempted: bool, job_status: &str, job_name: &str, control: &str, now: i64, expires_at_ms: i64) -> (r: MergeProgress)
    ensures
        match r {
            MergeProgress::Observe => spec_merge_progress(attempted, job_status@, job_name@, control@, now, expires_at_ms) is None,
            MergeProgress::Report(c, m) => spec_merge_progress(attempted, job_status@, job_name@, control@, now, expires_at_ms)
                == Some((c@, m@)),
        },
{
    let finished = str_eq(job_status, "failed") || str_eq(job_status, "succeeded");
    if attempted && (finished || str_eq(job_status, "missing")) {
        return MergeProgress::Observe;
    }
    if finished {
        return MergeProgress::Report(
            "blocked".to_owned(),
            "The source merge worker terminated before an attempt or receipt was recorded. Its identity is retained; it will not be rerun.".to_owned(),
        );
    }
    let state = if now >= expires_at_ms {
        "wait_expired".to_owned()
    } else if !str_eq(control, "active") {
        control.to_owned()
    } else {
        "waiting".to_owned()
    };
    let message = String::from_str("Source merge Job ").concat(job_name).concat(" is ").concat(job_status).concat(
        " under its original bounded authority.",
    );
    MergeProgress::Report(state, message)
}

pub open spec fn texts_are(v: Option<Seq<Seq<char>>>, a: Seq<char>, b: Seq<char>) -> bool {
    v == Some(seq![a, b])
}

/// A provider-observed merge is accepted when an attempt was admitted for
/// the exact authority, its parents are the approved base and head, in that
/// order, and its tree is a full commit id.
pub fn provider_merge_accepted(
    attempt_matches: bool,
    merge_parent_shas: Option<&Vec<String>>,
    merge_tree_sha: Option<&str>,
    base_commit_sha: &str,
    head_commit_sha: &str,
) -> (r: bool)
    ensures
        r == (attempt_matches && texts_are(
            match merge_parent_shas {
                Some(v) => Some(crate::text::texts_view(v@)),
                None => None,
            },
            base_commit_sha@,
            head_commit_sha@,
        ) && (merge_tree_sha matches Some(t) && spec_is_git_sha(encode_utf8(t@)))),
{
    let parents_ok = match merge_parent_shas {
        Some(v) => {
            if v.len() == 2 {
                let ok = str_eq(v[0].as_str(), base_commit_sha) && str_eq(v[1].as_str(), head_commit_sha);
                proof {
                    let tv = crate::text::texts_view(v@);
                    if ok {
                        assert(tv =~= seq![base_commit_sha@, head_commit_sha@]);
                    } else {
                        assert(tv[0] == v@[0]@ && tv[1] == v@[1]@);
                    }
                }
                ok
            } else {
                proof {
                    assert(crate::text::texts_view(v@).len() == v@.len());
                    assert(seq![base_commit_sha@, head_commit_sha@].len() == 2);
                }
                false
            }
        },
        None => false,
    };
    let tree_ok = match merge_tree_sha {
        Some(t) => is_git_sha(t),
        None => false,
    };
    attempt_matches && parents_ok && tree_ok
}

/// A merge may be written only while the service runs normally and the
/// work is active, its operation running, the WorkItem open, the source
/// intent waiting for the merge and the ChangeSet approved.
pub fn check_merge_write_ready(
    normal_mode: bool,
    control: &str,
    operation_status: &str,
    work_item_closed: bool,
    intent_status: &str,
    change_status: &str,
) -> (r: Result<(), ApiError>)
    ensures
        r is Ok <==> (normal_mode && control@ == "active"@ && operation_status@ == "running"@ && !work_item_closed
            && intent_status@ == "waiting_merge"@ && change_status@ == "approved"@),
        r matches Err(e) ==> e.kind == ErrorKind::Conflict && e.message@ == if !normal_mode {
            "source merge is withheld while PHarness is draining or read-only"@
        } else {
            "source merge is paused, stale, closed or not ready"@
        },
{
    if !normal_mode {
        return Err(ApiError::conflict("source merge is withheld while PHarness is draining or read-only"));
    }
    if !str_eq(control, "active") || !str_eq(operation_status, "running") || work_item_closed || !str_eq(
        intent_status,
        "waiting_merge",
    ) || !str_eq(change_status, "approved") {
        return Err(ApiError::conflict("source merge is paused, stale, closed or not ready"));
    }
    Ok(())
}

/// The provider's latest pre-merge check set for a source intent.
pub struct PreMergeChecks {
    pub authoritative_rules_succeeded: bool,
    pub status: String,
    pub required_checks: JsonValue,
    pub head_sha: String,
    pub required_set_hash: String,
    pub expires_at: String,
}

/// Whether a required check names the authority's check context and app.
pub open spec fn spec_names_required_check(item: Json, context: Seq<char>, app_id: u64) -> bool {
    item.get("name"@) == Some(Json::Str(context)) && u64_member(item, "app_id"@) == Some(app_id as int)
}

pub open spec fn spec_checks_fresh(c: PreMergeChecks, context: Seq<char>, app_id: u64, head_commit_sha: Seq<char>, required_checks_hash: Seq<char>, now: int) -> bool {
    &&& c.authoritative_rules_succeeded
    &&& c.status@ == "passing"@
    &&& spec_lists_required_check(c.required_checks@, context, app_id)
    &&& c.head_sha@ == head_commit_sha
    &&& c.required_set_hash@ == required_checks_hash
    &&& spec_parse_i64(c.expires_at@) matches Some(expiry) && expiry > now
}

fn names_required_check(items: &Vec<JsonValue>, context: &str, app_id: u64) -> (r: bool)
    ensures
        r == exists|i: int| 0 <= i < items@.len() && spec_names_required_check(#[trigger] items_view(items@)[i], context@, app_id),
{
    let mut i: usize = 0;
    while i < items.len()
        invariant
            i <= items@.len(),
            forall|k: int| 0 <= k < i ==> !spec_names_required_check(#[trigger] items_view(items@)[k], context@, app_id),
        decreases items@.len() - i,
    {
        let item = &items[i];
        let name_ok = match item.get("name") {
            Some(JsonValue::Str(n)) => str_eq(n.as_str(), context),
            _ => false,
        };
        let app_ok = match get_u64(item, "app_id") {
            Some(a) => a == app_id,
            None => false,
        };
        proof {
            assert(items_view(items@)[i as int] == item@);
        }
        if name_ok && app_ok {
            return true;
        }
        i = i + 1;
    }
    false
}

pub open spec fn spec_lists_required_check(v: Json, context: Seq<char>, app_id: u64) -> bool {
    v matches Json::Array(items) && exists|i: int| 0 <= i < items.len() && spec_names_required_check(#[trigger] items[i], context, app_id)
}

fn lists_required_check(v: &JsonValue, context: &str, app_id: u64) -> (r: bool)
    ensures
        r == spec_lists_required_check(v@, context@, app_id),
{
    match v {
        JsonValue::Array(items) => {
            proof {
                crate::json::lemma_array_view(*items);
            }
            names_required_check(items, context, app_id)
        },
        _ => false,
    }
}

/// A merge needs fresh, passing pre-merge checks for the exact approved
/// head: authoritative rules succeeded, the required check of the
/// authority's context and app among the required checks, the recorded
/// hash of that set (`required_checks_hash`, as hashed now) and an expiry
/// after `now`.
pub fn check_pre_merge(checks: Option<&PreMergeChecks>, context: &str, app_id: u64, head_commit_sha: &str, required_checks_hash: &str, now: i64) -> (r: Result<(), ApiError>)
    ensures
        match checks {
            None => r matches Err(e) && e.kind == ErrorKind::Conflict && e.message@ == "source merge has no pre-merge check evidence"@,
            Some(c) => if spec_checks_fresh(*c, context@, app_id, head_commit_sha@, required_checks_hash@, now as int) {
                r is Ok
            } else {
                r matches Err(e) && e.kind == ErrorKind::Conflict && e.message@
                    == "source merge requires fresh checks for the exact approved head"@
            },
        },
{
    let c = match checks {
        None => {
            return Err(ApiError::conflict("source merge has no pre-merge check evidence"));
        },
        Some(c) => c,
    };
    let listed = lists_required_check(&c.required_checks, context, app_id);
    let unexpired = match parse_i64(c.expires_at.as_str()) {
        Some(expiry) => expiry > now,
        None => false,
    };
    if !c.authoritative_rules_succeeded || !str_eq(c.status.as_str(), "passing") || !listed || !str_eq(
        c.head_sha.as_str(),
        head_commit_sha,
    ) || !str_eq(c.required_set_hash.as_str(), required_checks_hash) || !unexpired {
        return Err(ApiError::conflict("source merge requires fresh checks for the exact approved head"));
    }
    Ok(())
}

/// The merge writer must be configured for GitHub's API and allow the
/// authority's repository.
pub fn check_merge_writer(api_url: Option<&str>, allowed_repos: &Vec<String>, repository: &str) -> (r: Result<(), ApiError>)
    ensures
        match api_url {
            None => r matches Err(e) && e.kind == ErrorKind::Conflict && e.message@ == "source merge executor is unavailable"@,
            Some(u) => if u@ == "https://api.github.com"@ && seq_contains_text(allowed_repos@, repository@) {
                r is Ok
            } else {
                r matches Err(e) && e.kind == ErrorKind::Conflict && e.message@
                    == "source merge repository or provider is not writer-allowlisted"@
            },
        },
{
    let u = match api_url {
        None => {
            return Err(ApiError::conflict("source merge executor is unavailable"));
        },
        Some(u) => u,
    };
    if !str_eq(u, "https://api.github.com") || !contains_text(allowed_repos, repository) {
        return Err(ApiError::conflict("source merge repository or provider is not writer-allowlisted"));
    }
    Ok(())
}

/// The largest serialized merge receipt kept as evidence, in bytes.
pub const MERGE_RECEIPT_LIMIT: usize = 65536;

/// A merge receipt is kept only within its evidence limit.
pub fn check_merge_receipt_size(size: usize) -> (r: Result<(), ApiError>)
    ensures
        r is Ok <==> size <= MERGE_RECEIPT_LIMIT,
        r matches Err(e) ==> e.kind == ErrorKind::BadRequest && e.message@ == "source merge receipt exceeds its evidence limit"@,
{
    if size > MERGE_RECEIPT_LIMIT {
        return Err(ApiError::bad_request("source merge receipt exceeds its evidence limit"));
    }
    Ok(())
}

} // verus!
