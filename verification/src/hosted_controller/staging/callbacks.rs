//! The staging executor's and observer's callbacks: which outcome they may
//! report, and whether a reported commit follows the write that was admitted.
use vstd::prelude::*;
use vstd::utf8::encode_utf8;
use crate::artifacts::StoredArtifact;
use crate::error::{ApiError, ErrorKind};
use crate::json::{get_i64, get_str, i64_member, json_equal, str_member, Json, JsonValue};
use crate::text::str_eq;
use crate::validation::{is_bounded_code, spec_is_bounded_code};
use super::artifact_id;

verus! {

/// An outcome the staging executor or observer reports.
pub struct StagingOutcome {
    pub execution_id: String,
    pub authority_hash: String,
    pub status: String,
    pub observation: Option<JsonValue>,
    pub error_code: Option<String>,
    pub checked_at_ms: i64,
    pub observe_only: bool,
}

/// The saved staging authority an outcome is checked against.
pub struct StagingAuthorityFacts {
    /// The material hash of the saved authority.
    pub authority_hash: String,
    pub created_at_ms: i64,
    pub expires_at_ms: i64,
    /// Whether an observer was dispatched for the operation.
    pub observer_dispatched: bool,
}

/// What a staging outcome leads to.
pub enum StagingOutcomeStep {
    /// Record that the GitOps outcome stays unconfirmed, under this
    /// artifact id and error code.
    Unconfirmed { artifact_id: String, error_code: String },
    /// Check the reported commit against its admission and observation.
    Committed,
}

pub open spec fn outcome_belongs(o: StagingOutcome, a: StagingAuthorityFacts, now: i64) -> bool {
    &&& o.authority_hash@ == a.authority_hash@
    &&& o.checked_at_ms >= a.created_at_ms
    &&& o.checked_at_ms <= now + 30000
    &&& (o.observe_only ==> a.observer_dispatched)
}

pub open spec fn spec_exception_id(o: StagingOutcome) -> Seq<char> {
    "staging_"@ + (if o.observe_only {
        "observer_exception"@
    } else {
        "executor_exception"@
    }) + "_"@ + o.execution_id@
}

/// The step owed for an outcome reported at `now`, or the refusal's class
/// and message.
pub open spec fn spec_outcome_step(o: StagingOutcome, a: StagingAuthorityFacts, now: i64) -> Result<Option<(Seq<char>, Seq<char>)>, (ErrorKind, Seq<char>)> {
    if !outcome_belongs(o, a, now) {
        Err((ErrorKind::Conflict, "staging outcome belongs to different authority or an undispatched observer"@))
    } else if o.status@ == "unconfirmed"@ {
        match o.error_code {
            Some(c) if spec_is_bounded_code(encode_utf8(c@)) => if o.observation is Some {
                Err((ErrorKind::BadRequest, "unconfirmed staging cannot contain a successful observation"@))
            } else {
                Ok(Some((spec_exception_id(o), c@)))
            },
            _ => Err((ErrorKind::BadRequest, "unconfirmed staging requires a bounded error code"@)),
        }
    } else if o.status@ != "committed"@ || o.error_code is Some {
        Err((ErrorKind::BadRequest, "staging outcome must be committed or unconfirmed without contradictory evidence"@))
    } else {
        Ok(None)
    }
}

/// Decide what a staging outcome reported at `now` leads to.
pub fn staging_outcome_step(o: &StagingOutcome, a: &StagingAuthorityFacts, now: i64) -> (r: Result<StagingOutcomeStep, ApiError>)
    ensures
        match r {
            Ok(StagingOutcomeStep::Unconfirmed { artifact_id, error_code }) => spec_outcome_step(*o, *a, now)
                == Ok::<Option<(Seq<char>, Seq<char>)>, (ErrorKind, Seq<char>)>(Some((artifact_id@, error_code@))),
            Ok(StagingOutcomeStep::Committed) => spec_outcome_step(*o, *a, now) == Ok::<Option<(Seq<char>, Seq<char>)>, (ErrorKind, Seq<char>)>(None),
            Err(e) => spec_outcome_step(*o, *a, now) == Err::<Option<(Seq<char>, Seq<char>)>, (ErrorKind, Seq<char>)>((e.kind, e.message@)),
        },
{
    let late = (o.checked_at_ms as i128) > (now as i128) + 30000;
    if !str_eq(o.authority_hash.as_str(), a.authority_hash.as_str()) || o.checked_at_ms < a.created_at_ms || late
        || (o.observe_only && !a.observer_dispatched) {
        return Err(ApiError::conflict("staging outcome belongs to different authority or an undispatched observer"));
    }
    if str_eq(o.status.as_str(), "unconfirmed") {
        let code = match &o.error_code {
            Some(c) => {
                if is_bounded_code(c.as_str()) {
                    c
                } else {
                    return Err(ApiError::bad_request("unconfirmed staging requires a bounded error code"));
                }
            },
            None => return Err(ApiError::bad_request("unconfirmed staging requires a bounded error code")),
        };
        if o.observation.is_some() {
            return Err(ApiError::bad_request("unconfirmed staging cannot contain a successful observation"));
        }
        let kind = if o.observe_only {
            "observer_exception"
        } else {
            "executor_exception"
        };
        let id = artifact_id(kind, o.execution_id.as_str());
        return Ok(StagingOutcomeStep::Unconfirmed { artifact_id: id, error_code: code.as_str().to_owned() });
    }
    if !str_eq(o.status.as_str(), "committed") || o.error_code.is_some() {
        return Err(ApiError::bad_request("staging outcome must be committed or unconfirmed without contradictory evidence"));
    }
    Ok(StagingOutcomeStep::Committed)
}

/// The admitted write a commit must follow: recorded for this execution,
/// operation, authority and plan, admitted within the authority's lifetime
/// and no later than the commit was checked.
pub open spec fn admission_matches(
    attempt: StoredArtifact,
    o: StagingOutcome,
    a: StagingAuthorityFacts,
    operation_id: Seq<char>,
    plan_hash: Seq<char>,
) -> bool {
    &&& attempt.kind@ == "hosted_staging_admission"@
    &&& attempt.content_json matches Some(c) && {
        &&& str_member(c@, "execution_id"@) == Some(o.execution_id@)
        &&& str_member(c@, "operation_id"@) == Some(operation_id)
        &&& str_member(c@, "authority_hash"@) == Some(o.authority_hash@)
        &&& str_member(c@, "plan_hash"@) == Some(plan_hash)
        &&& i64_member(c@, "admitted_at_ms"@) matches Some(t) && a.created_at_ms <= t < a.expires_at_ms && t
            <= o.checked_at_ms
    }
}

/// The refusal owed for a committed outcome, given the saved plan's hash,
/// the admission found for the execution and the operation's id.
pub open spec fn commit_refusal(
    o: StagingOutcome,
    a: StagingAuthorityFacts,
    operation_id: Seq<char>,
    plan_hash: Option<Seq<char>>,
    attempt: Option<StoredArtifact>,
) -> Option<(ErrorKind, Seq<char>)> {
    match plan_hash {
        None => Some((ErrorKind::Conflict, "staging observation has no persisted plan"@)),
        Some(ph) => match attempt {
            None => Some((ErrorKind::Conflict, "staging commit has no admitted write"@)),
            Some(at) => if at.content_json is None {
                Some((ErrorKind::Conflict, "staging admission has no content"@))
            } else if !admission_matches(at, o, a, operation_id, ph) {
                Some((ErrorKind::Conflict, "staging observation differs from its original admission"@))
            } else if o.observation is None {
                Some((ErrorKind::BadRequest, "committed staging requires bounded GitHub observation"@))
            } else {
                None
            },
        },
    }
}

fn member_is(c: &JsonValue, key: &str, expected: &str) -> (r: bool)
    ensures
        r == (str_member(c@, key@) == Some(expected@)),
{
    match get_str(c, key) {
        Some(v) => str_eq(v, expected),
        None => false,
    }
}

/// Check a committed outcome against the saved plan and the admission it
/// claims to follow; on success, the observation to validate.
pub fn check_commit<'a>(
    o: &'a StagingOutcome,
    a: &StagingAuthorityFacts,
    operation_id: &str,
    plan_hash: Option<&str>,
    attempt: Option<&StoredArtifact>,
) -> (r: Result<&'a JsonValue, ApiError>)
    ensures
        match r {
            Ok(obs) => commit_refusal(*o, *a, operation_id@, match plan_hash {
                Some(p) => Some(p@),
                None => None,
            }, match attempt {
                Some(at) => Some(*at),
                None => None,
            }) is None && o.observation == Some(*obs),
            Err(e) => commit_refusal(*o, *a, operation_id@, match plan_hash {
                Some(p) => Some(p@),
                None => None,
            }, match attempt {
                Some(at) => Some(*at),
                None => None,
            }) == Some((e.kind, e.message@)),
        },
{
    let ph = match plan_hash {
        Some(p) => p,
        None => return Err(ApiError::conflict("staging observation has no persisted plan")),
    };
    let at = match attempt {
        Some(at) => at,
        None => return Err(ApiError::conflict("staging commit has no admitted write")),
    };
    let c = match &at.content_json {
        Some(c) => c,
        None => return Err(ApiError::conflict("staging admission has no content")),
    };
    let admitted_ok = match get_i64(c, "admitted_at_ms") {
        Some(t) => a.created_at_ms <= t && t < a.expires_at_ms && t <= o.checked_at_ms,
        None => false,
    };
    if !str_eq(at.kind.as_str(), "hosted_staging_admission") || !member_is(c, "execution_id", o.execution_id.as_str())
        || !member_is(c, "operation_id", operation_id) || !member_is(c, "authority_hash", o.authority_hash.as_str())
        || !member_is(c, "plan_hash", ph) || !admitted_ok {
        return Err(ApiError::conflict("staging observation differs from its original admission"));
    }
    match &o.observation {
        Some(obs) => Ok(obs),
        None => Err(ApiError::bad_request("committed staging requires bounded GitHub observation")),
    }
}

/// A commit receipt already recorded for the execution must be the same
/// commit: same kind, identity, execution and authority.
pub open spec fn existing_commit_refusal(existing: StoredArtifact, identity: Json, o: StagingOutcome) -> Option<Seq<char>> {
    match existing.content_json {
        None => Some("staging commit receipt has no content"@),
        Some(old) => if existing.kind@ != "hosted_staging_commit"@ || old@.get("identity"@) != Some(identity)
            || str_member(old@, "execution_id"@) != Some(o.execution_id@) || str_member(old@, "authority_hash"@) != Some(
            o.authority_hash@,
        ) {
            Some("a different staging commit is already recorded"@)
        } else {
            None
        },
    }
}

/// Check a commit receipt found already recorded against the commit now
/// reported with `identity`.
pub fn check_existing_commit(existing: &StoredArtifact, identity: &JsonValue, o: &StagingOutcome) -> (r: Result<(), ApiError>)
    ensures
        match r {
            Ok(()) => existing_commit_refusal(*existing, identity@, *o) is None,
            Err(e) => e.kind == ErrorKind::Conflict && existing_commit_refusal(*existing, identity@, *o) == Some(e.message@),
        },
{
    let old = match &existing.content_json {
        Some(c) => c,
        None => return Err(ApiError::conflict("staging commit receipt has no content")),
    };
    let same_identity = match old.get("identity") {
        Some(v) => json_equal(v, identity),
        None => false,
    };
    if !str_eq(existing.kind.as_str(), "hosted_staging_commit") || !same_identity || !member_is(
        old,
        "execution_id",
        o.execution_id.as_str(),
    ) || !member_is(old, "authority_hash", o.authority_hash.as_str()) {
        return Err(ApiError::conflict("a different staging commit is already recorded"));
    }
    Ok(())
}

} // verus!
