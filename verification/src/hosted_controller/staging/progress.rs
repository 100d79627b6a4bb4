//! How the controller follows one staging operation: it prepares only while
//! the work is active and unexpired, recovers the writer only before any
//! admission, and after an admission lets at most one bounded reader
//! recover the result; a commit settles the write but keeps verification
//! pending.
use vstd::prelude::*;
use crate::error::{ApiError, ErrorKind};
use crate::hosted_controller::{condition, Condition};
use crate::json::{entries_view, lemma_object_view, obj_insert, path_view, str_at, Json, JsonValue};
use crate::hosted_controller::build_stage::{at, at_exec};
use crate::text::str_eq;

verus! {

/// Whether new staging preparation is stopped: the work is not active or its
/// wait expired. Locks of a pending operation are released; the condition
/// names the expiry or the control state.
pub fn staging_preparation_stop(control: &str, expired: bool, operation_status: &str) -> (r: Option<(bool, Condition)>)
    ensures
        match r {
            None => control@ == "active"@ && !expired,
            Some((release, c)) => (control@ != "active"@ || expired) && release == (operation_status@ == "pending"@)
                && c.0@ == (if expired {
                "wait_expired"@
            } else {
                control@
            }) && c.1@ == "New staging preparation is stopped; the original operation remains recorded."@,
        },
{
    if !str_eq(control, "active") || expired {
        let name = if expired {
            "wait_expired"
        } else {
            control
        };
        return Some((
            str_eq(operation_status, "pending"),
            condition(name, String::from_str("New staging preparation is stopped; the original operation remains recorded.")),
        ));
    }
    None
}

/// The staging operation may be prepared only while its build evidence is
/// still eligible and hashes to the operation's recorded input.
pub fn check_staging_candidate(candidate_hash: Option<&str>, input_hash: &str) -> (r: Result<(), ApiError>)
    ensures
        match candidate_hash {
            None => r matches Err(e) && e.kind == ErrorKind::Conflict && e.message@
                == "the recorded staging operation no longer has eligible build evidence"@,
            Some(h) => if h@ == input_hash@ {
                r is Ok
            } else {
                r matches Err(e) && e.kind == ErrorKind::Conflict && e.message@
                    == "staging build or policy changed before preparation"@
            },
        },
{
    match candidate_hash {
        None => Err(ApiError::conflict("the recorded staging operation no longer has eligible build evidence")),
        Some(h) => if str_eq(h, input_hash) {
            Ok(())
        } else {
            Err(ApiError::conflict("staging build or policy changed before preparation"))
        },
    }
}

/// The deployment intent and execution a staging dispatch's authority names.
pub fn staging_dispatch_identity(dispatch: &JsonValue) -> (r: Result<(String, String), ApiError>)
    ensures
        match r {
            Ok((deployment, execution)) => str_at(dispatch@, seq!["authority"@, "deployment_intent_id"@]) == Some(deployment@)
                && str_at(dispatch@, seq!["authority"@, "execution_id"@]) == Some(execution@),
            Err(e) => e.kind == ErrorKind::Conflict && if str_at(dispatch@, seq!["authority"@, "deployment_intent_id"@]) is None {
                e.message@ == "staging deployment identity is missing"@
            } else {
                str_at(dispatch@, seq!["authority"@, "execution_id"@]) is None && e.message@
                    == "staging execution identity is missing"@
            },
        },
{
    proof {
        assert(path_view(seq!["authority", "deployment_intent_id"]) =~= seq!["authority"@, "deployment_intent_id"@]);
        assert(path_view(seq!["authority", "execution_id"]) =~= seq!["authority"@, "execution_id"@]);
    }
    let deployment = match crate::json::get_str_at(dispatch, &["authority", "deployment_intent_id"]) {
        Some(d) => d,
        None => {
            return Err(ApiError::conflict("staging deployment identity is missing"));
        },
    };
    let execution = match crate::json::get_str_at(dispatch, &["authority", "execution_id"]) {
        Some(x) => x,
        None => {
            return Err(ApiError::conflict("staging execution identity is missing"));
        },
    };
    Ok((String::from_str(deployment), String::from_str(execution)))
}

/// What a staging result records once its GitOps commit is observed: the
/// commit, with deployment and runtime verification still pending. Members
/// are in key order.
pub open spec fn spec_commit_result(receipt_id: Seq<char>, content: Option<Json>) -> Json {
    Json::Object(
        seq![
            ("artifact_id"@, Json::Str(receipt_id)),
            ("deployment_verification"@, Json::Str("pending"@)),
            ("gitops_commit_sha"@, match content {
                Some(c) => at(c, seq!["identity"@, "gitops_commit_sha"@]),
                None => Json::Null,
            }),
            ("runtime_verification"@, Json::Str("pending"@)),
            ("status"@, Json::Str("gitops_committed"@)),
        ],
    )
}

pub fn commit_result(receipt_id: &str, content: Option<&JsonValue>) -> (r: JsonValue)
    ensures
        r@ == spec_commit_result(receipt_id@, crate::json::opt_json_view(content)),
{
    proof {
        assert(path_view(seq!["identity", "gitops_commit_sha"]) =~= seq!["identity"@, "gitops_commit_sha"@]);
    }
    let sha = match content {
        Some(c) => at_exec(c, &["identity", "gitops_commit_sha"]),
        None => JsonValue::Null,
    };
    let mut es: Vec<(String, JsonValue)> = Vec::new();
    obj_insert(&mut es, "artifact_id", JsonValue::Str(String::from_str(receipt_id)));
    obj_insert(&mut es, "deployment_verification", JsonValue::Str(String::from_str("pending")));
    obj_insert(&mut es, "gitops_commit_sha", sha);
    obj_insert(&mut es, "runtime_verification", JsonValue::Str(String::from_str("pending")));
    obj_insert(&mut es, "status", JsonValue::Str(String::from_str("gitops_committed")));
    proof {
        lemma_object_view(es);
        assert(entries_view(es@) =~= spec_commit_result(receipt_id@, crate::json::opt_json_view(content))->Object_0);
    }
    JsonValue::Object(es)
}

/// The condition once the commit is observed: production is still not
/// authorized.
pub fn committed_condition(expired: bool) -> (r: Condition)
    ensures
        r.0@ == (if expired {
            "wait_expired"@
        } else {
            "waiting"@
        }),
        r.1@ == "The staging digest change is committed. Argo deployment identity and application runtime verification remain pending; production is not authorized."@,
{
    condition(
        if expired {
            "wait_expired"
        } else {
            "waiting"
        },
        String::from_str("The staging digest change is committed. Argo deployment identity and application runtime verification remain pending; production is not authorized."),
    )
}

/// The writer Job may be recovered (recreated) only before any admission,
/// while the work is active and unexpired.
pub fn writer_recovery_allowed(admitted: bool, control: &str, expired: bool) -> (r: bool)
    ensures
        r == (!admitted && control@ == "active"@ && !expired),
{
    !admitted && str_eq(control, "active") && !expired
}

/// What the writer Job's status leads to.
#[derive(Clone, Copy, Debug, PartialEq, Eq, Structural)]
pub enum StagingJobDecision {
    /// The admitted writer is gone or ended: recover its result through the
    /// bounded reader, dispatching it first when `dispatch_reader`.
    RecoverThroughReader { dispatch_reader: bool },
    /// The writer ended before any admission.
    EndedBeforeAdmission,
    /// Keep observing.
    Observe,
}

pub open spec fn is_gone_or_ended(status: Seq<char>) -> bool {
    status == "missing"@ || status == "failed"@ || status == "succeeded"@
}

pub open spec fn is_ended(status: Seq<char>) -> bool {
    status == "failed"@ || status == "succeeded"@
}

pub open spec fn spec_job_decision(writer_status: Seq<char>, admitted: bool, expired: bool, reader_dispatched: bool) -> StagingJobDecision {
    if is_gone_or_ended(writer_status) && admitted {
        StagingJobDecision::RecoverThroughReader { dispatch_reader: !expired && !reader_dispatched }
    } else if is_ended(writer_status) {
        StagingJobDecision::EndedBeforeAdmission
    } else {
        StagingJobDecision::Observe
    }
}

/// Decide on the writer Job's status. Only an admitted write is recovered
/// through the reader, and the reader is dispatched at most once and never
/// after the wait expired.
pub fn staging_job_decision(writer_status: &str, admitted: bool, expired: bool, reader_dispatched: bool) -> (r: StagingJobDecision)
    ensures
        r == spec_job_decision(writer_status@, admitted, expired, reader_dispatched),
{
    let gone_or_ended = str_eq(writer_status, "missing") || str_eq(writer_status, "failed") || str_eq(writer_status, "succeeded");
    if gone_or_ended && admitted {
        StagingJobDecision::RecoverThroughReader { dispatch_reader: !expired && !reader_dispatched }
    } else if str_eq(writer_status, "failed") || str_eq(writer_status, "succeeded") {
        StagingJobDecision::EndedBeforeAdmission
    } else {
        StagingJobDecision::Observe
    }
}

/// The reader blocks the operation once it ended, or once it is missing
/// while the wait still runs, without an accepted result.
pub fn reader_blocks(reader_status: &str, expired: bool) -> (r: bool)
    ensures
        r == (is_ended(reader_status@) || (reader_status@ == "missing"@ && !expired)),
{
    str_eq(reader_status, "failed") || str_eq(reader_status, "succeeded") || (str_eq(reader_status, "missing") && !expired)
}

/// The condition the operation reports for a writer or reader decision that
/// stops it, and otherwise while it keeps observing.
pub open spec fn spec_staging_condition(decision: StagingJobDecision, reader_blocked: bool, expired: bool) -> (Seq<char>, Seq<char>) {
    match decision {
        StagingJobDecision::RecoverThroughReader { .. } => if reader_blocked {
            ("blocked"@, "The bounded staging observer is unavailable or ended without an accepted result. No replacement writer or observer was started."@)
        } else {
            observing(expired)
        },
        StagingJobDecision::EndedBeforeAdmission => ("blocked"@, "The staging executor ended before admission. Its original identity and evidence remain; no new GitOps write was authorized."@),
        StagingJobDecision::Observe => observing(expired),
    }
}

pub open spec fn observing(expired: bool) -> (Seq<char>, Seq<char>) {
    if expired {
        ("wait_expired"@, "The original staging window expired. No new write or recovery Job is started; late observations remain recordable."@)
    } else {
        ("waiting"@, "Observing the original staging update. A GitOps commit, deployment and runtime verification remain separate evidence."@)
    }
}

pub fn staging_condition(decision: StagingJobDecision, reader_blocked: bool, expired: bool) -> (r: Condition)
    ensures
        (r.0@, r.1@) == spec_staging_condition(decision, reader_blocked, expired),
{
    let stopped = match decision {
        StagingJobDecision::RecoverThroughReader { .. } => reader_blocked,
        StagingJobDecision::EndedBeforeAdmission => true,
        StagingJobDecision::Observe => false,
    };
    if stopped {
        match decision {
            StagingJobDecision::EndedBeforeAdmission => condition("blocked", String::from_str("The staging executor ended before admission. Its original identity and evidence remain; no new GitOps write was authorized.")),
            _ => condition("blocked", String::from_str("The bounded staging observer is unavailable or ended without an accepted result. No replacement writer or observer was started.")),
        }
    } else if expired {
        condition("wait_expired", String::from_str("The original staging window expired. No new write or recovery Job is started; late observations remain recordable."))
    } else {
        condition("waiting", String::from_str("Observing the original staging update. A GitOps commit, deployment and runtime verification remain separate evidence."))
    }
}

/// No writer is ever recreated after an admission, and no reader is
/// dispatched for a write that was never admitted or after the wait expired.
pub proof fn lemma_admitted_write_is_never_replayed(writer_status: Seq<char>, admitted: bool, control: Seq<char>, expired: bool, reader_dispatched: bool)
    ensures
        admitted ==> !(!admitted && control == "active"@ && !expired),
        spec_job_decision(writer_status, admitted, expired, reader_dispatched) matches StagingJobDecision::RecoverThroughReader { dispatch_reader } && dispatch_reader
            ==> admitted && !expired && !reader_dispatched,
{
}

/// What one pass over a staging operation has learned so far. A pass starts
/// with what the records show and fills in each answer the controller
/// obtains by acting.
pub struct StagingFacts {
    pub control: String,
    pub expired: bool,
    pub operation_status: String,
    /// Whether the original staging dispatch (authority and Jobs) is recorded.
    pub dispatched: bool,
    /// The hash of the still eligible build evidence, when there is any.
    pub candidate_hash: Option<String>,
    pub input_hash: String,
    pub commit_recorded: bool,
    pub admitted: bool,
    /// The baseline's answer once it was consulted: a condition that stops
    /// the pass, or none.
    pub baseline: Option<Option<Condition>>,
    /// The writer Job's status once it was reconciled.
    pub writer_status: Option<String>,
    pub reader_dispatched: bool,
    /// The reader Job's status once it was reconciled.
    pub reader_status: Option<String>,
}

/// The next thing a pass over a staging operation does.
pub enum StagingAction {
    /// Stop new preparation, releasing a pending operation's locks.
    Stop { release_locks: bool, condition: Condition },
    /// Begin the operation when it is still pending, then prepare its
    /// original authority and Jobs.
    Prepare { begin_operation: bool },
    /// Settle the observed commit and report that verification is pending.
    SettleCommit { condition: Condition },
    /// Consult the baseline window.
    CheckBaseline,
    /// Reconcile the writer Job, recreating it only when `recover`.
    ReconcileWriter { recover: bool },
    /// Reconcile the bounded reader, dispatching it first when `dispatch`.
    ReconcileReader { dispatch: bool },
    /// End the pass with this condition.
    Report(Condition),
}

pub open spec fn cond_view(c: Condition) -> (Seq<char>, Seq<char>) {
    (c.0@, c.1@)
}

/// An action by its plain values: a tag, a flag and a condition.
pub open spec fn action_view(a: StagingAction) -> (int, bool, (Seq<char>, Seq<char>)) {
    match a {
        StagingAction::Stop { release_locks, condition } => (0, release_locks, cond_view(condition)),
        StagingAction::Prepare { begin_operation } => (1, begin_operation, (Seq::empty(), Seq::empty())),
        StagingAction::SettleCommit { condition } => (2, false, cond_view(condition)),
        StagingAction::CheckBaseline => (3, false, (Seq::empty(), Seq::empty())),
        StagingAction::ReconcileWriter { recover } => (4, recover, (Seq::empty(), Seq::empty())),
        StagingAction::ReconcileReader { dispatch } => (5, dispatch, (Seq::empty(), Seq::empty())),
        StagingAction::Report(c) => (6, false, cond_view(c)),
    }
}

pub open spec fn stopped_reason() -> Seq<char> {
    "New staging preparation is stopped; the original operation remains recorded."@
}

pub open spec fn committed_reason() -> Seq<char> {
    "The staging digest change is committed. Argo deployment identity and application runtime verification remain pending; production is not authorized."@
}

/// The next action of a pass, or the refusal that ends it.
pub open spec fn spec_staging_step(f: StagingFacts) -> Result<(int, bool, (Seq<char>, Seq<char>)), Seq<char>> {
    if !f.dispatched {
        if f.control@ != "active"@ || f.expired {
            Ok((0, f.operation_status@ == "pending"@, (if f.expired { "wait_expired"@ } else { f.control@ }, stopped_reason())))
        } else {
            match f.candidate_hash {
                None => Err("the recorded staging operation no longer has eligible build evidence"@),
                Some(h) => if h@ != f.input_hash@ {
                    Err("staging build or policy changed before preparation"@)
                } else {
                    Ok((1, f.operation_status@ == "pending"@, (Seq::empty(), Seq::empty())))
                },
            }
        }
    } else if f.commit_recorded {
        Ok((2, false, (if f.expired { "wait_expired"@ } else { "waiting"@ }, committed_reason())))
    } else if !f.admitted && f.baseline is None {
        Ok((3, false, (Seq::empty(), Seq::empty())))
    } else if !f.admitted && (f.baseline matches Some(Some(_))) {
        Ok((6, false, cond_view(f.baseline->0->0)))
    } else {
        match f.writer_status {
            None => Ok((4, !f.admitted && f.control@ == "active"@ && !f.expired, (Seq::empty(), Seq::empty()))),
            Some(ws) => {
                let d = spec_job_decision(ws@, f.admitted, f.expired, f.reader_dispatched);
                match d {
                    StagingJobDecision::RecoverThroughReader { dispatch_reader } => match f.reader_status {
                        None => Ok((5, dispatch_reader, (Seq::empty(), Seq::empty()))),
                        Some(rs) => Ok((6, false, spec_staging_condition(d, is_ended(rs@) || (rs@ == "missing"@ && !f.expired), f.expired))),
                    },
                    _ => Ok((6, false, spec_staging_condition(d, false, f.expired))),
                }
            },
        }
    }
}

/// Decide the next action of a pass over a staging operation. The order is
/// fixed: preparation (only for active, unexpired work whose build evidence
/// is unchanged) before anything else, an observed commit before any
/// baseline or Job, the baseline before the writer while nothing is
/// admitted, the writer before the reader.
pub fn staging_step(f: &StagingFacts) -> (r: Result<StagingAction, ApiError>)
    ensures
        match r {
            Ok(a) => spec_staging_step(*f) == Ok::<(int, bool, (Seq<char>, Seq<char>)), Seq<char>>(action_view(a)),
            Err(e) => e.kind == ErrorKind::Conflict && spec_staging_step(*f) == Err::<(int, bool, (Seq<char>, Seq<char>)), Seq<char>>(e.message@),
        },
{
    if !f.dispatched {
        match staging_preparation_stop(f.control.as_str(), f.expired, f.operation_status.as_str()) {
            Some((release_locks, condition)) => {
                return Ok(StagingAction::Stop { release_locks, condition });
            },
            None => {},
        }
        let candidate = match &f.candidate_hash {
            Some(h) => Some(h.as_str()),
            None => None,
        };
        check_staging_candidate(candidate, f.input_hash.as_str())?;
        return Ok(StagingAction::Prepare { begin_operation: str_eq(f.operation_status.as_str(), "pending") });
    }
    if f.commit_recorded {
        return Ok(StagingAction::SettleCommit { condition: committed_condition(f.expired) });
    }
    if !f.admitted {
        match &f.baseline {
            None => {
                return Ok(StagingAction::CheckBaseline);
            },
            Some(Some(c)) => {
                return Ok(StagingAction::Report((c.0.clone(), c.1.clone())));
            },
            Some(None) => {},
        }
    }
    match &f.writer_status {
        None => Ok(StagingAction::ReconcileWriter { recover: writer_recovery_allowed(f.admitted, f.control.as_str(), f.expired) }),
        Some(ws) => {
            let d = staging_job_decision(ws.as_str(), f.admitted, f.expired, f.reader_dispatched);
            match d {
                StagingJobDecision::RecoverThroughReader { dispatch_reader } => match &f.reader_status {
                    None => Ok(StagingAction::ReconcileReader { dispatch: dispatch_reader }),
                    Some(rs) => Ok(StagingAction::Report(staging_condition(d, reader_blocks(rs.as_str(), f.expired), f.expired))),
                },
                _ => Ok(StagingAction::Report(staging_condition(d, false, f.expired))),
            }
        },
    }
}

/// The order of a pass: work that is stopped or expired is never prepared;
/// nothing is prepared once a dispatch is recorded; an observed commit
/// settles before any baseline or Job is consulted; and an admitted write is
/// never recreated.
pub open spec fn step_tag(f: StagingFacts) -> int {
    match spec_staging_step(f) {
        Ok(a) => a.0,
        Err(_) => -1,
    }
}

pub open spec fn step_flag(f: StagingFacts) -> bool {
    match spec_staging_step(f) {
        Ok(a) => a.1,
        Err(_) => false,
    }
}

pub proof fn lemma_staging_step_order(f: StagingFacts)
    ensures
        step_tag(f) == 1 ==> !f.dispatched && f.control@ == "active"@ && !f.expired && (f.candidate_hash matches Some(
            h,
        ) && h@ == f.input_hash@),
        f.dispatched && f.commit_recorded ==> step_tag(f) == 2,
        step_tag(f) == 4 || step_tag(f) == 5 ==> f.dispatched && !f.commit_recorded && (f.admitted || f.baseline
            == Some::<Option<Condition>>(None)),
        step_tag(f) == 4 && step_flag(f) ==> !f.admitted,
        step_tag(f) == 5 && step_flag(f) ==> f.admitted && !f.expired && !f.reader_dispatched,
{
}

} // verus!
