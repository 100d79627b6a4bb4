//! The hosted controller's source-delivery operation: the recorded source
//! intent must still match the work item's authority, a terminal intent
//! settles the operation, and otherwise the original writer or a fresh
//! observation is followed without ever starting a second writer.
use vstd::prelude::*;
use crate::error::{ApiError, ErrorKind};
use crate::hosted_controller::{condition, Condition};
use crate::json::{get_str, json_str, set_member, spec_set_member, str_member, Json, JsonValue};
use crate::text::{opt_str_view, opt_text, parse_i64, spec_parse_i64, str_eq};
use crate::workflow_operations::OfferedAction;
use crate::gitops_execution::json_i64;

verus! {

/// A source delivery intent as the controller reads it.
pub struct SourceIntent {
    pub id: String,
    pub status: String,
    pub repository_id: String,
    pub base_commit: String,
    pub source_repo: String,
    pub authorization: JsonValue,
    pub writer_execution_id: Option<String>,
    pub observer_execution_id: Option<String>,
    pub has_pull_request: bool,
    pub updated_at: String,
}

/// The work item authority a source intent must still match.
pub struct SourceAuthority {
    pub work_item_id: String,
    pub repository_id: String,
    pub work_item_source_commit: Option<String>,
    pub policy_source_repo: String,
    pub workflow_policy_hash: Option<String>,
    pub source_delivery_authorized: bool,
    pub observe_authorized: bool,
}

/// `obj[key]` equals the optional text: the text itself, or JSON `null`
/// (an absent member reads as `null`).
pub open spec fn member_is_opt_text(obj: Json, key: Seq<char>, text: Option<Seq<char>>) -> bool {
    match text {
        Some(t) => obj.get(key) == Some(Json::Str(t)),
        None => obj.get(key) is None || obj.get(key) == Some(Json::Null),
    }
}

/// The intent still belongs to this work item's repository, commit, source
/// repository and saved workflow, and the workflow authorizes source delivery.
pub open spec fn spec_source_authority_ok(i: SourceIntent, a: SourceAuthority) -> bool {
    &&& i.repository_id@ == a.repository_id@
    &&& a.work_item_source_commit matches Some(c) && c@ == i.base_commit@
    &&& i.source_repo@ == a.policy_source_repo@
    &&& member_is_opt_text(i.authorization@, "workflow_policy_hash"@, opt_text(a.workflow_policy_hash))
    &&& i.authorization@.get("work_item_id"@) == Some(Json::Str(a.work_item_id@))
    &&& a.source_delivery_authorized
}

fn member_is_opt(obj: &JsonValue, key: &str, text: Option<&str>) -> (r: bool)
    ensures
        r == member_is_opt_text(obj@, key@, opt_str_view(text)),
{
    let m = obj.get(key);
    match text {
        Some(t) => match m {
            Some(v) => match v.as_str() {
                Some(s) => str_eq(s, t),
                None => false,
            },
            None => false,
        },
        None => match m {
            Some(JsonValue::Null) => true,
            Some(_) => false,
            None => true,
        },
    }
}

fn source_authority_ok(i: &SourceIntent, a: &SourceAuthority) -> (r: bool)
    ensures
        r == spec_source_authority_ok(*i, *a),
{
    let commit_ok = match &a.work_item_source_commit {
        Some(c) => str_eq(c.as_str(), i.base_commit.as_str()),
        None => false,
    };
    let hash = match &a.workflow_policy_hash {
        Some(h) => Some(h.as_str()),
        None => None,
    };
    let work_item_ok = match i.authorization.get("work_item_id") {
        Some(v) => match v.as_str() {
            Some(s) => str_eq(s, a.work_item_id.as_str()),
            None => false,
        },
        None => false,
    };
    str_eq(i.repository_id.as_str(), a.repository_id.as_str()) && commit_ok && str_eq(
        i.source_repo.as_str(),
        a.policy_source_repo.as_str(),
    ) && member_is_opt(&i.authorization, "workflow_policy_hash", hash) && work_item_ok
        && a.source_delivery_authorized
}

pub open spec fn is_settled_status(s: Seq<char>) -> bool {
    s == "merged"@ || s == "failed"@ || s == "pull_request_closed"@
}

/// The writer identity planned when the source delivery was authorized.
pub open spec fn planned_writer(i: SourceIntent) -> Option<Seq<char>> {
    match str_member(i.authorization@, "writer_execution_id"@) {
        Some(id) => if id.len() > 0 {
            Some(id)
        } else {
            None
        },
        None => None,
    }
}

/// What the controller does with a source operation before it records the
/// operation as still running.
pub enum SourceStep {
    /// The source outcome is final: record success and report it.
    Settled { merged: bool, refs: JsonValue, condition: Condition },
    /// Report a condition and do nothing else.
    Report(Condition),
    /// Move the intent to the originally planned writer, then follow it.
    DispatchWriter { execution_id: String, refs: JsonValue },
    /// Record the operation as running and follow the intent.
    Continue { refs: JsonValue },
}

pub open spec fn spec_source_refs(refs: Json, intent_id: Seq<char>, deadline: i64) -> Json {
    spec_set_member(spec_set_member(refs, "source_delivery_intent_id"@, Json::Str(intent_id)), "source_wait_deadline"@, Json::Int(deadline as int))
}

pub open spec fn settled_reason(merged: bool) -> Seq<char> {
    if merged {
        "The exact source merge is recorded. Build, deployment, and runtime verification remain separate."@
    } else {
        "Source delivery failed or its pull request was closed. No build or deployment is authorized by this result."@
    }
}

/// The first decision on a source operation whose wait ends at `deadline`.
pub fn source_operation_step(
    intent: &SourceIntent,
    authority: &SourceAuthority,
    refs: JsonValue,
    control: &str,
    expired: bool,
    now: i64,
    deadline: i64,
) -> (r: Result<SourceStep, ApiError>)
    requires
        refs@ is Object || refs@ is Null,
    ensures
        r is Err <==> !spec_source_authority_ok(*intent, *authority) || (!is_settled_status(intent.status@)
            && intent.status@ != "head_drift"@ && intent.status@ == "authorized"@ && control@ == "active"@
            && !(expired || now >= deadline) && (planned_writer(*intent) is None
            || intent.writer_execution_id is Some || intent.has_pull_request)),
        r matches Err(e) ==> e.kind == ErrorKind::Conflict && e.message@ == if !spec_source_authority_ok(*intent, *authority) {
            "source intent no longer matches this WorkItem's recorded authority"@
        } else if planned_writer(*intent) is None {
            "the original planned source writer identity is unavailable"@
        } else {
            "partial source publication has conflicting execution state"@
        },
        r matches Ok(SourceStep::Settled { merged, refs: out, condition: c }) ==> {
            &&& spec_source_authority_ok(*intent, *authority)
            &&& is_settled_status(intent.status@)
            &&& merged == (intent.status@ == "merged"@)
            &&& out@ == spec_source_refs(refs@, intent.id@, deadline)
            &&& c.0@ == (if merged { "progressing"@ } else { "blocked"@ })
            &&& c.1@ == settled_reason(merged)
        },
        r matches Ok(SourceStep::Report(c)) ==> {
            &&& spec_source_authority_ok(*intent, *authority)
            &&& !is_settled_status(intent.status@)
            &&& if intent.status@ == "head_drift"@ {
                c.0@ == "blocked"@ && c.1@ == "The pull-request head changed. Source evidence must be revalidated before delivery."@
            } else {
                &&& intent.status@ == "authorized"@
                &&& (control@ != "active"@ || expired || now >= deadline)
                &&& c.0@ == (if expired || now >= deadline { "wait_expired"@ } else { control@ })
                &&& c.1@ == "The source intent is recorded but no new writer is being dispatched."@
            }
        },
        r matches Ok(SourceStep::DispatchWriter { execution_id, refs: out }) ==> {
            &&& spec_source_authority_ok(*intent, *authority)
            &&& intent.status@ == "authorized"@ && control@ == "active"@ && !(expired || now >= deadline)
            &&& planned_writer(*intent) == Some(execution_id@)
            &&& intent.writer_execution_id is None && !intent.has_pull_request
            &&& out@ == spec_source_refs(refs@, intent.id@, deadline)
        },
        r matches Ok(SourceStep::Continue { refs: out }) ==> {
            &&& spec_source_authority_ok(*intent, *authority)
            &&& !is_settled_status(intent.status@) && intent.status@ != "head_drift"@ && intent.status@ != "authorized"@
            &&& out@ == spec_source_refs(refs@, intent.id@, deadline)
        },
{
    if !source_authority_ok(intent, authority) {
        return Err(ApiError::conflict("source intent no longer matches this WorkItem's recorded authority"));
    }
    let waited_out = expired || now >= deadline;
    let refs1 = set_member(refs, "source_delivery_intent_id", json_str(intent.id.as_str()));
    let out = set_member(refs1, "source_wait_deadline", json_i64(deadline));
    let status = intent.status.as_str();
    if str_eq(status, "merged") || str_eq(status, "failed") || str_eq(status, "pull_request_closed") {
        let merged = str_eq(status, "merged");
        let c = if merged {
            condition("progressing", String::from_str("The exact source merge is recorded. Build, deployment, and runtime verification remain separate."))
        } else {
            condition("blocked", String::from_str("Source delivery failed or its pull request was closed. No build or deployment is authorized by this result."))
        };
        return Ok(SourceStep::Settled { merged, refs: out, condition: c });
    }
    if str_eq(status, "head_drift") {
        return Ok(SourceStep::Report(condition("blocked", String::from_str("The pull-request head changed. Source evidence must be revalidated before delivery."))));
    }
    if str_eq(status, "authorized") {
        if !str_eq(control, "active") || waited_out {
            let name = if waited_out {
                "wait_expired"
            } else {
                control
            };
            return Ok(SourceStep::Report(condition(name, String::from_str("The source intent is recorded but no new writer is being dispatched."))));
        }
        let planned = match get_str(&intent.authorization, "writer_execution_id") {
            Some(id) => if id.unicode_len() > 0 {
                id
            } else {
                return Err(ApiError::conflict("the original planned source writer identity is unavailable"));
            },
            None => return Err(ApiError::conflict("the original planned source writer identity is unavailable")),
        };
        if intent.writer_execution_id.is_some() || intent.has_pull_request {
            return Err(ApiError::conflict("partial source publication has conflicting execution state"));
        }
        return Ok(SourceStep::DispatchWriter { execution_id: planned.to_owned(), refs: out });
    }
    Ok(SourceStep::Continue { refs: out })
}

/// What the controller does with a source operation it has recorded as
/// running.
pub enum SourceProgress {
    /// Follow the writer (or observer) job with this execution identity.
    ObserveJob { writer: bool, execution_id: String, recover_missing: bool },
    /// Report a condition and do nothing else.
    Report(Condition),
    /// Run the ready observation action with this state hash.
    Observe { state_hash: String },
}

/// Index of the ready source observation action.
pub open spec fn first_observe_action(actions: Seq<OfferedAction>) -> Option<int>
    decreases actions.len(),
{
    if actions.len() == 0 {
        None
    } else if actions[0].id@ == "observe_source_delivery"@ && actions[0].status@ == "ready"@ {
        Some(0)
    } else {
        match first_observe_action(actions.drop_first()) {
            Some(i) => Some(i + 1),
            None => None,
        }
    }
}

/// Enough time since the last observation to observe again.
pub open spec fn spec_observation_due(now: i64, observed_at: int, interval_ms: i64) -> bool {
    let elapsed = if now - observed_at < i64::MIN {
        i64::MIN as int
    } else if now - observed_at > i64::MAX {
        i64::MAX as int
    } else {
        now - observed_at
    };
    elapsed >= interval_ms * 4
}

/// The job a dispatched intent is waiting on.
pub open spec fn job_execution(i: SourceIntent) -> Option<Seq<char>> {
    if i.status@ == "writer_dispatched"@ {
        opt_text(i.writer_execution_id)
    } else {
        opt_text(i.observer_execution_id)
    }
}

fn first_observe_action_exec(actions: &Vec<OfferedAction>) -> (r: Option<usize>)
    ensures
        match r {
            Some(i) => first_observe_action(actions@) == Some(i as int) && i < actions@.len(),
            None => first_observe_action(actions@) is None,
        },
{
    let n = actions.len();
    let mut i: usize = 0;
    proof {
        assert(actions@.subrange(0, n as int) =~= actions@);
    }
    while i < n
        invariant
            n == actions@.len(),
            i <= n,
            first_observe_action(actions@) == match first_observe_action(actions@.subrange(i as int, n as int)) {
                Some(t) => Some(t + i),
                None => None::<int>,
            },
        decreases n - i,
    {
        let ghost rest = actions@.subrange(i as int, n as int);
        proof {
            assert(rest[0] == actions@[i as int]);
            assert(rest.drop_first() =~= actions@.subrange(i + 1, n as int));
        }
        if str_eq(actions[i].id.as_str(), "observe_source_delivery") && str_eq(actions[i].status.as_str(), "ready") {
            return Some(i);
        }
        i = i + 1;
    }
    proof {
        assert(actions@.subrange(n as int, n as int) =~= Seq::<OfferedAction>::empty());
    }
    None
}

/// Follow a running source operation: a dispatched job is observed, an
/// expired wait stops, and otherwise a fresh observation is run once the
/// last one is old enough.
pub fn source_progress_step(
    intent: &SourceIntent,
    authority: &SourceAuthority,
    control: &str,
    expired: bool,
    now: i64,
    interval_ms: i64,
    actions: &Vec<OfferedAction>,
) -> (r: Result<SourceProgress, ApiError>)
    requires
        0 <= interval_ms <= i64::MAX / 4,
    ensures
        ({
            let dispatched = intent.status@ == "writer_dispatched"@ || intent.status@ == "observer_dispatched"@;
            let observed_at = spec_parse_i64(intent.updated_at@);
            match r {
                Ok(SourceProgress::ObserveJob { writer, execution_id, recover_missing }) => {
                    &&& dispatched
                    &&& writer == (intent.status@ == "writer_dispatched"@)
                    &&& job_execution(*intent) == Some(execution_id@)
                    &&& recover_missing == (!expired && (!writer || control@ == "active"@))
                },
                Ok(SourceProgress::Report(c)) => !dispatched && if expired {
                    c.0@ == "wait_expired"@
                        && c.1@ == "The bounded source wait expired. No further writer or observation Jobs are dispatched; recorded callbacks remain valid."@
                } else {
                    &&& authority.observe_authorized
                    &&& observed_at matches Some(t) && !spec_observation_due(now, t, interval_ms)
                    &&& c.0@ == "waiting"@ && c.1@ == "Waiting for the next bounded source observation."@
                },
                Ok(SourceProgress::Observe { state_hash }) => {
                    &&& !dispatched && !expired && authority.observe_authorized
                    &&& observed_at matches Some(t) && spec_observation_due(now, t, interval_ms)
                    &&& first_observe_action(actions@) matches Some(i) && state_hash@ == actions@[i].state_hash@
                },
                Err(e) => e.kind == ErrorKind::Conflict && if dispatched {
                    job_execution(*intent) is None && e.message@ == "source execution identity is unavailable"@
                } else {
                    &&& !expired
                    &&& (!authority.observe_authorized || observed_at is None
                        || (spec_observation_due(now, observed_at->0, interval_ms) && first_observe_action(actions@) is None))
                    &&& e.message@ == if !authority.observe_authorized {
                        "the saved workflow does not authorize source observation"@
                    } else if observed_at is None {
                        "source observation freshness is unavailable"@
                    } else {
                        "the source intent does not permit another observation"@
                    }
                },
            }
        }),
{
    let status = intent.status.as_str();
    let writer = str_eq(status, "writer_dispatched");
    if writer || str_eq(status, "observer_dispatched") {
        let execution = if writer {
            &intent.writer_execution_id
        } else {
            &intent.observer_execution_id
        };
        return match execution {
            Some(id) => Ok(SourceProgress::ObserveJob {
                writer,
                execution_id: id.clone(),
                recover_missing: !expired && (!writer || str_eq(control, "active")),
            }),
            None => Err(ApiError::conflict("source execution identity is unavailable")),
        };
    }
    if expired {
        return Ok(SourceProgress::Report(condition("wait_expired", String::from_str("The bounded source wait expired. No further writer or observation Jobs are dispatched; recorded callbacks remain valid."))));
    }
    if !authority.observe_authorized {
        return Err(ApiError::conflict("the saved workflow does not authorize source observation"));
    }
    let observed_at = match parse_i64(intent.updated_at.as_str()) {
        Some(t) => t,
        None => return Err(ApiError::conflict("source observation freshness is unavailable")),
    };
    let elapsed: i128 = now as i128 - observed_at as i128;
    let clamped: i128 = if elapsed < -9223372036854775808i128 {
        -9223372036854775808i128
    } else if elapsed > 9223372036854775807i128 {
        9223372036854775807i128
    } else {
        elapsed
    };
    if clamped < interval_ms as i128 * 4 {
        return Ok(SourceProgress::Report(condition("waiting", String::from_str("Waiting for the next bounded source observation."))));
    }
    match first_observe_action_exec(actions) {
        Some(i) => Ok(SourceProgress::Observe { state_hash: actions[i].state_hash.clone() }),
        None => Err(ApiError::conflict("the source intent does not permit another observation")),
    }
}

/// The condition reported after observing a source job with status
/// `status`: a finished job whose outcome was not recorded blocks (unless a
/// callback arrived meanwhile); a running job keeps the wait going.
pub open spec fn spec_source_job_condition(job_name: Seq<char>, status: Seq<char>, intent_changed: bool, expired: bool) -> (Seq<char>, Seq<char>) {
    if status == "failed"@ || status == "succeeded"@ {
        if intent_changed {
            ("progressing"@, "The source callback arrived during observation; its evidence will be reconciled next."@)
        } else {
            ("blocked"@, "Source Job "@ + job_name + " is "@ + status
                + " without its outcome recorded. Its identity and repository lock are retained; it is not recreated."@)
        }
    } else {
        (if expired { "wait_expired"@ } else { "waiting"@ }, "Source Job "@ + job_name + " is "@ + status
            + ". The original execution identity is retained."@)
    }
}

pub fn source_job_condition(job_name: &str, status: &str, intent_changed: bool, expired: bool) -> (r: Condition)
    ensures
        (r.0@, r.1@) == spec_source_job_condition(job_name@, status@, intent_changed, expired),
{
    if str_eq(status, "failed") || str_eq(status, "succeeded") {
        if intent_changed {
            condition("progressing", String::from_str("The source callback arrived during observation; its evidence will be reconciled next."))
        } else {
            let reason = String::from_str("Source Job ").concat(job_name).concat(" is ").concat(status).concat(
                " without its outcome recorded. Its identity and repository lock are retained; it is not recreated.",
            );
            condition("blocked", reason)
        }
    } else {
        let reason = String::from_str("Source Job ").concat(job_name).concat(" is ").concat(status).concat(
            ". The original execution identity is retained.",
        );
        condition(if expired { "wait_expired" } else { "waiting" }, reason)
    }
}

} // verus!
