//! When the controller collects the native reads of a five-minute staging
//! window: the baseline before a GitOps write and the candidate runtime
//! after it. Each read happens once, inside its part of the window; a window
//! that is missed or expired fails instead of being renewed.
use vstd::prelude::*;
use super::runtime::RuntimeWindow;
use crate::error::{ApiError, ErrorKind};
use crate::json::{i64_member, str_member, u64_member, JsonValue, get_i64, get_u64, str_member_is};

verus! {

/// The window an observation belongs to.
#[derive(Clone, Copy, Debug, PartialEq, Eq, Structural)]
pub enum CollectionStage {
    Baseline,
    Runtime,
}

/// Why a window's collection fails for good.
#[derive(Clone, Copy, Debug, PartialEq, Eq, Structural)]
pub enum CollectionFailure {
    WindowExpired,
    InitialIdentityWindowMissed,
    FunctionalWindowMissed,
    IdentityAllowanceExhausted,
}

/// What the controller does next for a window.
#[derive(Clone, Copy, Debug, PartialEq, Eq, Structural)]
pub enum CollectionStep {
    Fail(CollectionFailure),
    Wait,
    CollectInitialIdentity,
    CollectProbes,
    CollectFinal,
}

pub open spec fn start_ms(w: RuntimeWindow) -> int {
    w.start_unix_seconds * 1000
}

pub open spec fn end_ms(w: RuntimeWindow) -> int {
    w.end_unix_seconds * 1000
}

/// The final reads wait ten seconds after the window for ingestion.
pub open spec fn final_ms(w: RuntimeWindow) -> int {
    (w.end_unix_seconds + 10) * 1000
}

/// Evidence of a window is accepted until one minute after its end.
pub open spec fn expiry_ms(w: RuntimeWindow) -> int {
    w.end_unix_seconds * 1000 + 60000
}

/// Whether the window's times can be written as millisecond timestamps.
pub open spec fn window_in_range(w: RuntimeWindow) -> bool {
    expiry_ms(w) <= i64::MAX && start_ms(w) <= i64::MAX
}

pub open spec fn spec_baseline_step(
    expired: bool,
    now: int,
    w: RuntimeWindow,
    before_recorded: bool,
    probes_recorded: bool,
) -> CollectionStep {
    if expired || now >= expiry_ms(w) {
        CollectionStep::Fail(CollectionFailure::WindowExpired)
    } else if !before_recorded {
        if now >= start_ms(w) {
            CollectionStep::Fail(CollectionFailure::InitialIdentityWindowMissed)
        } else {
            CollectionStep::CollectInitialIdentity
        }
    } else if now < start_ms(w) {
        CollectionStep::Wait
    } else if !probes_recorded {
        if now >= end_ms(w) {
            CollectionStep::Fail(CollectionFailure::FunctionalWindowMissed)
        } else {
            CollectionStep::CollectProbes
        }
    } else if now >= final_ms(w) {
        CollectionStep::CollectFinal
    } else {
        CollectionStep::Wait
    }
}

pub open spec fn spec_runtime_step(now: int, w: RuntimeWindow, probes_recorded: bool) -> CollectionStep {
    if now >= expiry_ms(w) {
        CollectionStep::Fail(CollectionFailure::WindowExpired)
    } else if now < start_ms(w) {
        CollectionStep::Wait
    } else if !probes_recorded {
        if now >= end_ms(w) {
            CollectionStep::Fail(CollectionFailure::FunctionalWindowMissed)
        } else {
            CollectionStep::CollectProbes
        }
    } else if now < final_ms(w) {
        CollectionStep::Wait
    } else {
        CollectionStep::CollectFinal
    }
}

/// The next step of a baseline window with no result yet: its deployment
/// identity is read before the window starts, the functional probes during
/// it, and the final reads ten seconds after it ends.
pub fn baseline_step(expired: bool, now: i64, w: RuntimeWindow, before_recorded: bool, probes_recorded: bool) -> (r: CollectionStep)
    requires
        window_in_range(w),
    ensures
        r == spec_baseline_step(expired, now as int, w, before_recorded, probes_recorded),
{
    let start = (w.start_unix_seconds as i64) * 1000;
    let end = (w.end_unix_seconds as i64) * 1000;
    if expired || now >= end + 60000 {
        CollectionStep::Fail(CollectionFailure::WindowExpired)
    } else if !before_recorded {
        if now >= start {
            CollectionStep::Fail(CollectionFailure::InitialIdentityWindowMissed)
        } else {
            CollectionStep::CollectInitialIdentity
        }
    } else if now < start {
        CollectionStep::Wait
    } else if !probes_recorded {
        if now >= end {
            CollectionStep::Fail(CollectionFailure::FunctionalWindowMissed)
        } else {
            CollectionStep::CollectProbes
        }
    } else if now >= end + 10000 {
        CollectionStep::CollectFinal
    } else {
        CollectionStep::Wait
    }
}

/// The next step of a candidate runtime window once the deployment's
/// identity fixed it: probes during the window, the final reads ten seconds
/// after it ends.
pub fn runtime_step(now: i64, w: RuntimeWindow, probes_recorded: bool) -> (r: CollectionStep)
    requires
        window_in_range(w),
    ensures
        r == spec_runtime_step(now as int, w, probes_recorded),
{
    let start = (w.start_unix_seconds as i64) * 1000;
    let end = (w.end_unix_seconds as i64) * 1000;
    if now >= end + 60000 {
        CollectionStep::Fail(CollectionFailure::WindowExpired)
    } else if now < start {
        CollectionStep::Wait
    } else if !probes_recorded {
        if now >= end {
            CollectionStep::Fail(CollectionFailure::FunctionalWindowMissed)
        } else {
            CollectionStep::CollectProbes
        }
    } else if now < end + 10000 {
        CollectionStep::Wait
    } else {
        CollectionStep::CollectFinal
    }
}

/// Every collection happens inside its part of the window, and never once
/// the window's evidence has expired: the initial identity before the window
/// starts, probes while it lasts, and the final reads only after probes
/// were recorded and the ingestion allowance has passed.
pub proof fn lemma_collection_respects_window(
    stage: CollectionStage,
    expired: bool,
    now: int,
    w: RuntimeWindow,
    before_recorded: bool,
    probes_recorded: bool,
)
    ensures
        ({
            let step = match stage {
                CollectionStage::Baseline => spec_baseline_step(expired, now, w, before_recorded, probes_recorded),
                CollectionStage::Runtime => spec_runtime_step(now, w, probes_recorded),
            };
            &&& step == CollectionStep::CollectInitialIdentity ==> stage == CollectionStage::Baseline && now < start_ms(w)
            &&& step == CollectionStep::CollectProbes ==> start_ms(w) <= now < end_ms(w) && !probes_recorded
            &&& step == CollectionStep::CollectFinal ==> probes_recorded && final_ms(w) <= now < expiry_ms(w)
            &&& (expired && stage == CollectionStage::Baseline) || now >= expiry_ms(w) ==> step
                == CollectionStep::Fail(CollectionFailure::WindowExpired)
        }),
{
}

pub open spec fn spec_failure_code(stage: CollectionStage, f: CollectionFailure) -> Option<Seq<char>> {
    match (stage, f) {
        (CollectionStage::Baseline, CollectionFailure::WindowExpired) => Some("baseline_original_window_expired"@),
        (CollectionStage::Baseline, CollectionFailure::InitialIdentityWindowMissed) => Some("baseline_initial_identity_window_missed"@),
        (CollectionStage::Baseline, CollectionFailure::FunctionalWindowMissed) => Some("baseline_functional_window_missed"@),
        (CollectionStage::Runtime, CollectionFailure::WindowExpired) => Some("staging_original_window_expired"@),
        (CollectionStage::Runtime, CollectionFailure::FunctionalWindowMissed) => Some("staging_functional_window_missed"@),
        (CollectionStage::Runtime, CollectionFailure::IdentityAllowanceExhausted) => Some("staging_identity_observation_allowance_exhausted"@),
        _ => None,
    }
}

/// The reason recorded when a window's collection fails; none for a failure
/// that the stage never reaches.
pub fn failure_code(stage: CollectionStage, f: CollectionFailure) -> (r: Option<&'static str>)
    ensures
        match r {
            Some(c) => spec_failure_code(stage, f) == Some(c@),
            None => spec_failure_code(stage, f) is None,
        },
{
    match (stage, f) {
        (CollectionStage::Baseline, CollectionFailure::WindowExpired) => Some("baseline_original_window_expired"),
        (CollectionStage::Baseline, CollectionFailure::InitialIdentityWindowMissed) => Some("baseline_initial_identity_window_missed"),
        (CollectionStage::Baseline, CollectionFailure::FunctionalWindowMissed) => Some("baseline_functional_window_missed"),
        (CollectionStage::Runtime, CollectionFailure::WindowExpired) => Some("staging_original_window_expired"),
        (CollectionStage::Runtime, CollectionFailure::FunctionalWindowMissed) => Some("staging_functional_window_missed"),
        (CollectionStage::Runtime, CollectionFailure::IdentityAllowanceExhausted) => Some("staging_identity_observation_allowance_exhausted"),
        _ => None,
    }
}

pub open spec fn spec_interruption_code(stage: CollectionStage, step: CollectionStep) -> Option<Seq<char>> {
    match (stage, step) {
        (CollectionStage::Baseline, CollectionStep::CollectInitialIdentity) => Some("baseline_identity_collection_interrupted"@),
        (CollectionStage::Baseline, CollectionStep::CollectProbes) => Some("baseline_functional_collection_interrupted"@),
        (CollectionStage::Baseline, CollectionStep::CollectFinal) => Some("baseline_final_collection_interrupted"@),
        (CollectionStage::Runtime, CollectionStep::CollectInitialIdentity) => Some("staging_identity_collection_interrupted"@),
        (CollectionStage::Runtime, CollectionStep::CollectProbes) => Some("staging_functional_collection_interrupted"@),
        (CollectionStage::Runtime, CollectionStep::CollectFinal) => Some("staging_final_collection_interrupted"@),
        _ => None,
    }
}

/// The reason recorded when a read that was begun earlier never finished:
/// its single allowance is spent, so the window fails instead of reading
/// again.
pub fn interruption_code(stage: CollectionStage, step: CollectionStep) -> (r: Option<&'static str>)
    ensures
        match r {
            Some(c) => spec_interruption_code(stage, step) == Some(c@),
            None => spec_interruption_code(stage, step) is None,
        },
{
    match (stage, step) {
        (CollectionStage::Baseline, CollectionStep::CollectInitialIdentity) => Some("baseline_identity_collection_interrupted"),
        (CollectionStage::Baseline, CollectionStep::CollectProbes) => Some("baseline_functional_collection_interrupted"),
        (CollectionStage::Baseline, CollectionStep::CollectFinal) => Some("baseline_final_collection_interrupted"),
        (CollectionStage::Runtime, CollectionStep::CollectInitialIdentity) => Some("staging_identity_collection_interrupted"),
        (CollectionStage::Runtime, CollectionStep::CollectProbes) => Some("staging_functional_collection_interrupted"),
        (CollectionStage::Runtime, CollectionStep::CollectFinal) => Some("staging_final_collection_interrupted"),
        _ => None,
    }
}

pub open spec fn or_max_u64(v: Option<int>) -> int {
    match v {
        Some(n) => n,
        None => u64::MAX as int,
    }
}

/// A baseline's initial identity read counts only when it verified the
/// deployment and completed before the window started.
pub open spec fn spec_initial_identity_verified(observation: crate::json::Json, start_unix_seconds: u64) -> bool {
    &&& str_member(observation, "identity_state"@) == Some("verified"@)
    &&& or_max_u64(u64_member(observation, "completed_at_unix_ms"@)) <= start_unix_seconds * 1000
}

pub fn initial_identity_verified(observation: &JsonValue, start_unix_seconds: u64) -> (r: bool)
    requires
        start_unix_seconds * 1000 <= u64::MAX,
    ensures
        r == spec_initial_identity_verified(observation@, start_unix_seconds),
{
    if !str_member_is(observation, "identity_state", "verified") {
        return false;
    }
    let completed = match get_u64(observation, "completed_at_unix_ms") {
        Some(c) => c,
        None => 18446744073709551615u64,
    };
    completed <= start_unix_seconds * 1000
}

/// A candidate identity read may fix the runtime window only when it verified
/// the deployment and was started no earlier than the accepted commit check.
pub open spec fn spec_identity_may_fix_window(observation: crate::json::Json, created: int, commit_checked_at_ms: int) -> bool {
    str_member(observation, "identity_state"@) == Some("verified"@) && created >= commit_checked_at_ms
}

pub fn identity_may_fix_window(observation: &JsonValue, created: i64, commit_checked_at_ms: i64) -> (r: bool)
    ensures
        r == spec_identity_may_fix_window(observation@, created as int, commit_checked_at_ms as int),
{
    str_member_is(observation, "identity_state", "verified") && created >= commit_checked_at_ms
}

/// The window derived from the read's start is fixed only while it has not
/// started yet, and only by a read that ran entirely between its own
/// recorded start and the window's start.
pub open spec fn spec_identity_precedes_window(observation: crate::json::Json, created: int, now: int, start_ms: int) -> bool {
    let completed = match i64_member(observation, "completed_at_unix_ms"@) {
        Some(c) => c,
        None => i64::MAX as int,
    };
    let started = match i64_member(observation, "started_at_unix_ms"@) {
        Some(s) => s,
        None => 0,
    };
    now < start_ms && completed <= start_ms && started >= created
}

pub fn identity_precedes_window(observation: &JsonValue, created: i64, now: i64, start_ms: i64) -> (r: bool)
    ensures
        r == spec_identity_precedes_window(observation@, created as int, now as int, start_ms as int),
{
    let completed = match get_i64(observation, "completed_at_unix_ms") {
        Some(c) => c,
        None => 9223372036854775807i64,
    };
    let started = match get_i64(observation, "started_at_unix_ms") {
        Some(s) => s,
        None => 0,
    };
    now < start_ms && completed <= start_ms && started >= created
}

/// The refusal of a recorded identity-read marker, if any: it must carry its
/// original clock, name the step's own artifact, and lie between the
/// operation's creation and now.
pub open spec fn spec_identity_marker_refusal(marker: crate::json::Json, artifact_id: Seq<char>, operation_created_at: int, now: int) -> Option<Seq<char>> {
    match i64_member(marker, "started_at_ms"@) {
        None => Some("staging identity observation has no original clock"@),
        Some(created) => if str_member(marker, "artifact_id"@) != Some(artifact_id) || created < operation_created_at
            || created > now {
            Some("staging identity observation marker has different authority"@)
        } else {
            None
        },
    }
}

/// Check a recorded identity-read marker and return the time it was started.
pub fn check_identity_marker(marker: &JsonValue, artifact_id: &str, operation_created_at: i64, now: i64) -> (r: Result<i64, ApiError>)
    ensures
        match r {
            Ok(created) => spec_identity_marker_refusal(marker@, artifact_id@, operation_created_at as int, now as int) is None
                && i64_member(marker@, "started_at_ms"@) == Some(created as int),
            Err(e) => e.kind == ErrorKind::Conflict && spec_identity_marker_refusal(marker@, artifact_id@, operation_created_at as int, now as int)
                == Some(e.message@),
        },
{
    let created = match get_i64(marker, "started_at_ms") {
        Some(c) => c,
        None => {
            return Err(ApiError::conflict("staging identity observation has no original clock"));
        },
    };
    if !str_member_is(marker, "artifact_id", artifact_id) || created < operation_created_at || created > now {
        return Err(ApiError::conflict("staging identity observation marker has different authority"));
    }
    Ok(created)
}

/// A verified runtime result must still find the marker of the identity read
/// that fixed its window: the same start time and the same artifact.
pub open spec fn spec_window_marker_matches(marker: crate::json::Json, created_at_ms: int, artifact_id: Seq<char>) -> bool {
    i64_member(marker, "started_at_ms"@) == Some(created_at_ms) && str_member(marker, "artifact_id"@) == Some(artifact_id)
}

pub fn window_marker_matches(marker: &JsonValue, created_at_ms: i64, artifact_id: &str) -> (r: bool)
    ensures
        r == spec_window_marker_matches(marker@, created_at_ms as int, artifact_id@),
{
    let started = get_i64(marker, "started_at_ms");
    let same_time = match started {
        Some(s) => s == created_at_ms,
        None => false,
    };
    same_time && str_member_is(marker, "artifact_id", artifact_id)
}

/// The half hour within which a staging write must be admitted after its
/// operation was created.
pub const ADMISSION_ALLOWANCE_MILLIS: i64 = 1800000;

/// An admission's recorded time must fall inside the authority's lifetime and
/// within half an hour (saturating) of the operation's creation.
pub open spec fn spec_admission_time_in_bounds(time: int, authority_created_at_ms: int, authority_expires_at_ms: int, operation_created_at: int) -> bool {
    let limit = if operation_created_at + ADMISSION_ALLOWANCE_MILLIS > i64::MAX {
        i64::MAX as int
    } else {
        operation_created_at + ADMISSION_ALLOWANCE_MILLIS
    };
    authority_created_at_ms <= time < authority_expires_at_ms && time < limit
}

pub fn admission_time_in_bounds(time: i64, authority_created_at_ms: i64, authority_expires_at_ms: i64, operation_created_at: i64) -> (r: bool)
    ensures
        r == spec_admission_time_in_bounds(time as int, authority_created_at_ms as int, authority_expires_at_ms as int, operation_created_at as int),
{
    let limit = if operation_created_at > 9223372036854775807i64 - ADMISSION_ALLOWANCE_MILLIS {
        9223372036854775807i64
    } else {
        operation_created_at + ADMISSION_ALLOWANCE_MILLIS
    };
    time >= authority_created_at_ms && time < authority_expires_at_ms && time < limit
}

} // verus!
