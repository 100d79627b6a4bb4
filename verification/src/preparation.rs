//! Environment preparation of a hosted builder run: a recorded preparation
//! must match its run, a failed one fails the run once, and an absent job is
//! only dispatched for a queued preparation of active, unexpired work.
use vstd::prelude::*;
use crate::error::{ApiError, ErrorKind};
use crate::hosted_controller::{condition, Condition};
use crate::text::{opt_text, str_eq};

verus! {

/// A recorded environment preparation.
pub struct PreparationRecord {
    pub work_item_id: String,
    pub run_id: Option<String>,
    pub source_commit: String,
    pub environment_profile_id: String,
    pub status: String,
    pub error: Option<String>,
}

/// The preparation belongs to this work item, run, commit and profile.
pub open spec fn spec_preparation_matches(
    p: PreparationRecord,
    work_item_id: Seq<char>,
    run_id: Seq<char>,
    source_commit: Option<Seq<char>>,
    profile_id: Seq<char>,
) -> bool {
    &&& p.work_item_id@ == work_item_id
    &&& opt_text(p.run_id) == Some(run_id)
    &&& source_commit == Some(p.source_commit@)
    &&& p.environment_profile_id@ == profile_id
}

/// What to do with a preparation before its job is observed.
pub enum PreparationStep {
    /// Fail the run with this reason and report the condition.
    FailRun { reason: String, condition: Condition },
    /// Observe the preparation job.
    Observe,
}

pub open spec fn default_failure() -> Seq<char> {
    "recorded environment preparation failed"@
}

/// Decide on a preparation record before its job is observed.
pub fn preparation_step(
    preparation: &PreparationRecord,
    work_item_id: &str,
    run_id: &str,
    source_commit: Option<&str>,
    profile_id: &str,
) -> (r: Result<PreparationStep, ApiError>)
    ensures
        ({
            let matches = spec_preparation_matches(*preparation, work_item_id@, run_id@, crate::text::opt_str_view(source_commit), profile_id@);
            match r {
                Ok(PreparationStep::FailRun { reason, condition: c }) => matches && preparation.status@ == "failed"@
                    && reason@ == (match preparation.error {
                        Some(e) => e@,
                        None => default_failure(),
                    }) && c.0@ == "blocked"@
                    && c.1@ == "The existing environment preparation failed; no additional attempt was created."@,
                Ok(PreparationStep::Observe) => matches && preparation.status@ != "succeeded"@ && preparation.status@ != "failed"@,
                Err(e) => e.kind == ErrorKind::Conflict && (!matches || preparation.status@ == "succeeded"@) && e.message@ == if !matches {
                    "preparation identity no longer matches its authorized Run"@
                } else {
                    "Preparation and Run state are inconsistent. A signature cannot be reconstructed from an incomplete historical callback."@
                },
            }
        }),
{
    let run_ok = match &preparation.run_id {
        Some(r) => str_eq(r.as_str(), run_id),
        None => false,
    };
    let commit_ok = match source_commit {
        Some(c) => str_eq(c, preparation.source_commit.as_str()),
        None => false,
    };
    if !str_eq(preparation.work_item_id.as_str(), work_item_id) || !run_ok || !commit_ok || !str_eq(
        preparation.environment_profile_id.as_str(),
        profile_id,
    ) {
        return Err(ApiError::conflict("preparation identity no longer matches its authorized Run"));
    }
    if str_eq(preparation.status.as_str(), "succeeded") {
        return Err(ApiError::conflict("Preparation and Run state are inconsistent. A signature cannot be reconstructed from an incomplete historical callback."));
    }
    if str_eq(preparation.status.as_str(), "failed") {
        let reason = match &preparation.error {
            Some(e) => e.clone(),
            None => String::from_str("recorded environment preparation failed"),
        };
        return Ok(PreparationStep::FailRun {
            reason,
            condition: condition("blocked", String::from_str("The existing environment preparation failed; no additional attempt was created.")),
        });
    }
    Ok(PreparationStep::Observe)
}

/// What to do once the preparation job has been observed.
pub enum PreparedStep {
    /// The job ended without a durable result: re-read the records first.
    Terminated,
    /// Report a condition without dispatching.
    Report(Condition),
    /// Record the job as dispatched (starting it first when it is absent)
    /// and keep waiting with the condition.
    MarkDispatched { start_job: bool, condition: Condition },
}

pub open spec fn preparation_wait(expired: bool) -> (Seq<char>, Seq<char>) {
    (if expired { "wait_expired"@ } else { "waiting"@ }, "Observing the existing isolated preparation; coding requires its validated snapshot."@)
}

/// Decide on a preparation whose job was observed with status
/// `job_status` (`None` when the job is absent).
pub fn prepared_step(status: &str, job_status: Option<&str>, control: &str, expired: bool) -> (r: PreparedStep)
    ensures
        ({
            let js = crate::text::opt_str_view(job_status);
            let terminal = js == Some("failed"@) || js == Some("completed"@);
            match r {
                PreparedStep::Terminated => terminal,
                PreparedStep::Report(c) => !terminal && js is None && (status@ != "queued"@ || control@ != "active"@ || expired)
                    && c.0@ == "blocked"@
                    && c.1@ == "The recorded preparation Job is absent. An acknowledged, paused, or expired operation is not replayed."@,
                PreparedStep::MarkDispatched { start_job, condition: c } => {
                    &&& !terminal
                    &&& (js is Some || (status@ == "queued"@ && control@ == "active"@ && !expired))
                    &&& start_job == (js is None)
                    &&& (c.0@, c.1@) == preparation_wait(expired)
                    &&& (status@ == "queued"@ || js is Some)
                },
            }
        }),
        ({
            let js = crate::text::opt_str_view(job_status);
            js is Some && !(js == Some("failed"@) || js == Some("completed"@)) && status@ != "queued"@ ==> (r matches PreparedStep::MarkDispatched { start_job, .. } && !start_job)
        }),
{
    let terminal = match job_status {
        Some(s) => str_eq(s, "failed") || str_eq(s, "completed"),
        None => false,
    };
    if terminal {
        return PreparedStep::Terminated;
    }
    let queued = str_eq(status, "queued");
    let active = str_eq(control, "active");
    if job_status.is_none() && (!queued || !active || expired) {
        return PreparedStep::Report(condition("blocked", String::from_str("The recorded preparation Job is absent. An acknowledged, paused, or expired operation is not replayed.")));
    }
    let c = condition(if expired { "wait_expired" } else { "waiting" }, String::from_str("Observing the existing isolated preparation; coding requires its validated snapshot."));
    PreparedStep::MarkDispatched { start_job: job_status.is_none(), condition: c }
}

pub open spec fn terminated_reason() -> Seq<char> {
    "The exact preparation Job terminated without a validated durable result; Job completion cannot authorize coding."@
}

/// The condition for a job that ended without a durable result: new
/// evidence arrived during observation (or a newer result won the update),
/// else the preparation and its run fail.
pub fn terminated_preparation_condition(evidence_arrived: bool, failure_recorded: bool) -> (r: Condition)
    ensures
        evidence_arrived ==> r.0@ == "progressing"@ && r.1@ == "A preparation callback supplied new durable evidence during observation."@,
        !evidence_arrived && !failure_recorded ==> r.0@ == "progressing"@
            && r.1@ == "A newer preparation result won the update; terminal evidence was preserved."@,
        !evidence_arrived && failure_recorded ==> r.0@ == "blocked"@ && r.1@ == terminated_reason(),
{
    if evidence_arrived {
        condition("progressing", String::from_str("A preparation callback supplied new durable evidence during observation."))
    } else if !failure_recorded {
        condition("progressing", String::from_str("A newer preparation result won the update; terminal evidence was preserved."))
    } else {
        condition("blocked", String::from_str("The exact preparation Job terminated without a validated durable result; Job completion cannot authorize coding."))
    }
}

} // verus!
