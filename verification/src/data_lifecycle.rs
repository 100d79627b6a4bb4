//! Archive deletion, retention previews and retention holds: which
//! destructive lifecycle actions are ready, and which operator requests are
//! refused before any store or cluster call.
use vstd::prelude::*;
use vstd::string::*;
use crate::error::{ApiError, ErrorKind};
use crate::json::{entries_view, items_view, lemma_array_view, lemma_object_view, obj_insert, Json, JsonValue};
use crate::text::{
    debug_quoted, opt_str_view, parse_unsigned, spec_debug_quoted, spec_parse_unsigned, str_eq,
};
use crate::validation::{
    spec_actor_reason_refusal, spec_is_kubernetes_name, spec_is_sha256_checksum,
    validate_actor_reason, validate_kubernetes_resource_name, validate_sha256,
};
use vstd::utf8::encode_utf8;

verus! {

/// How long a retention preview may be executed after it was made.
pub const PREVIEW_TTL_MILLIS: u128 = 900000;

/// The longest a retention hold may last.
pub const MAX_HOLD_MILLIS: u128 = 31536000000;

/// How far in the future an archive's deletion eligibility must lie.
pub const MIN_ARCHIVE_RETENTION_MILLIS: u128 = 1209600000;

/// The fields of a stored archive record that deletion review reads.
pub struct ArchiveRecord {
    pub id: String,
    pub status: String,
    pub deleted: bool,
    pub deletion_eligible_at: String,
    pub database_generation_id: String,
}

/// The fields of a stored retention hold that deletion review reads.
pub struct RetentionHold {
    pub subject_kind: String,
    pub subject_id: String,
    pub released: bool,
    pub expires_at: Option<String>,
}

/// Why an archive may not be deleted yet.
#[derive(Clone, Copy, Debug, PartialEq, Eq, Structural)]
pub enum ArchiveBlocker {
    NotRetained,
    RetentionWindowActive,
    GenerationMismatch,
    GenerationNotAccepted,
    RetentionHoldActive,
}

/// A millisecond timestamp as stored text; text that is not one counts as
/// the far future.
pub open spec fn spec_millis_or_never(text: Seq<char>) -> int {
    match spec_parse_unsigned(text, u128::MAX as int) {
        Some(v) => v,
        None => u128::MAX as int,
    }
}

/// A hold that still protects the archive: it names the archive, is not
/// released, and has no readable expiry or one after `now`.
pub open spec fn spec_hold_protects(hold: RetentionHold, archive_id: Seq<char>, now: int) -> bool {
    &&& hold.subject_kind@ == "archive"@
    &&& hold.subject_id@ == archive_id
    &&& !hold.released
    &&& match hold.expires_at {
        None => true,
        Some(t) => match spec_parse_unsigned(t@, u128::MAX as int) {
            None => true,
            Some(e) => e > now,
        },
    }
}

pub open spec fn spec_any_hold_protects(holds: Seq<RetentionHold>, archive_id: Seq<char>, now: int) -> bool {
    exists|i: int| 0 <= i < holds.len() && spec_hold_protects(#[trigger] holds[i], archive_id, now)
}

pub open spec fn when(cond: bool, b: ArchiveBlocker) -> Seq<ArchiveBlocker> {
    if cond {
        seq![b]
    } else {
        Seq::empty()
    }
}

/// The blockers of an archive's deletion, in the order they are reported.
pub open spec fn spec_archive_blockers(
    archive: ArchiveRecord,
    generation: Option<Seq<char>>,
    generation_accepted: bool,
    holds: Seq<RetentionHold>,
    now: int,
) -> Seq<ArchiveBlocker> {
    when(archive.status@ != "retained"@ || archive.deleted, ArchiveBlocker::NotRetained)
        + when(spec_millis_or_never(archive.deletion_eligible_at@) > now, ArchiveBlocker::RetentionWindowActive)
        + when(generation != Some(archive.database_generation_id@), ArchiveBlocker::GenerationMismatch)
        + when(!generation_accepted, ArchiveBlocker::GenerationNotAccepted)
        + when(spec_any_hold_protects(holds, archive.id@, now), ArchiveBlocker::RetentionHoldActive)
}

fn millis_or_never(text: &str) -> (r: u128)
    ensures
        r as int == spec_millis_or_never(text@),
{
    match parse_unsigned(text, u128::MAX) {
        Some(v) => v,
        None => u128::MAX,
    }
}

/// Whether one hold still protects the archive at `now`.
pub fn hold_protects(hold: &RetentionHold, archive_id: &str, now: u128) -> (r: bool)
    ensures
        r == spec_hold_protects(*hold, archive_id@, now as int),
{
    if !str_eq(hold.subject_kind.as_str(), "archive") || !str_eq(hold.subject_id.as_str(), archive_id)
        || hold.released {
        return false;
    }
    match &hold.expires_at {
        None => true,
        Some(t) => match parse_unsigned(t.as_str(), u128::MAX) {
            None => true,
            Some(e) => e > now,
        },
    }
}

fn any_hold_protects(holds: &Vec<RetentionHold>, archive_id: &str, now: u128) -> (r: bool)
    ensures
        r == spec_any_hold_protects(holds@, archive_id@, now as int),
{
    let mut i: usize = 0;
    while i < holds.len()
        invariant
            i <= holds@.len(),
            forall|k: int| 0 <= k < i ==> !spec_hold_protects(#[trigger] holds@[k], archive_id@, now as int),
        decreases holds@.len() - i,
    {
        if hold_protects(&holds[i], archive_id, now) {
            return true;
        }
        i = i + 1;
    }
    false
}

/// Everything that stands between an archive and its deletion at `now`:
/// it must still be retained, past its eligibility time, in the active and
/// accepted database generation, and under no active hold.
pub fn archive_deletion_blockers(
    archive: &ArchiveRecord,
    generation: Option<&str>,
    generation_accepted: bool,
    holds: &Vec<RetentionHold>,
    now: u128,
) -> (r: Vec<ArchiveBlocker>)
    ensures
        r@ == spec_archive_blockers(*archive, opt_str_view(generation), generation_accepted, holds@, now as int),
{
    let mut blockers: Vec<ArchiveBlocker> = Vec::new();
    let ghost a = when(archive.status@ != "retained"@ || archive.deleted, ArchiveBlocker::NotRetained);
    let ghost b = when(spec_millis_or_never(archive.deletion_eligible_at@) > now, ArchiveBlocker::RetentionWindowActive);
    let ghost c = when(opt_str_view(generation) != Some(archive.database_generation_id@), ArchiveBlocker::GenerationMismatch);
    let ghost d = when(!generation_accepted, ArchiveBlocker::GenerationNotAccepted);
    let ghost e = when(spec_any_hold_protects(holds@, archive.id@, now as int), ArchiveBlocker::RetentionHoldActive);
    if !str_eq(archive.status.as_str(), "retained") || archive.deleted {
        blockers.push(ArchiveBlocker::NotRetained);
    }
    assert(blockers@ =~= a);
    if millis_or_never(archive.deletion_eligible_at.as_str()) > now {
        blockers.push(ArchiveBlocker::RetentionWindowActive);
    }
    assert(blockers@ =~= a + b);
    let same_generation = match generation {
        Some(g) => str_eq(g, archive.database_generation_id.as_str()),
        None => false,
    };
    if !same_generation {
        blockers.push(ArchiveBlocker::GenerationMismatch);
    }
    assert(blockers@ =~= a + b + c);
    if !generation_accepted {
        blockers.push(ArchiveBlocker::GenerationNotAccepted);
    }
    assert(blockers@ =~= a + b + c + d);
    if any_hold_protects(holds, archive.id.as_str(), now) {
        blockers.push(ArchiveBlocker::RetentionHoldActive);
    }
    assert(blockers@ =~= a + b + c + d + e);
    blockers
}

pub open spec fn spec_blocker_code(b: ArchiveBlocker) -> Seq<char> {
    match b {
        ArchiveBlocker::NotRetained => "archive_not_retained"@,
        ArchiveBlocker::RetentionWindowActive => "retention_window_active"@,
        ArchiveBlocker::GenerationMismatch => "database_generation_mismatch"@,
        ArchiveBlocker::GenerationNotAccepted => "database_generation_not_accepted"@,
        ArchiveBlocker::RetentionHoldActive => "retention_hold_active"@,
    }
}

/// The stable code under which a blocker is reported.
pub fn blocker_code(b: ArchiveBlocker) -> (r: &'static str)
    ensures
        r@ == spec_blocker_code(b),
{
    match b {
        ArchiveBlocker::NotRetained => "archive_not_retained",
        ArchiveBlocker::RetentionWindowActive => "retention_window_active",
        ArchiveBlocker::GenerationMismatch => "database_generation_mismatch",
        ArchiveBlocker::GenerationNotAccepted => "database_generation_not_accepted",
        ArchiveBlocker::RetentionHoldActive => "retention_hold_active",
    }
}

pub open spec fn spec_blocker_summary(b: ArchiveBlocker, eligible_at: Seq<char>) -> Seq<char> {
    match b {
        ArchiveBlocker::NotRetained => "The archive is no longer retained."@,
        ArchiveBlocker::RetentionWindowActive => "Archive deletion is unavailable until "@ + eligible_at,
        ArchiveBlocker::GenerationMismatch => "The ArchiveRecord does not belong to the active database generation."@,
        ArchiveBlocker::GenerationNotAccepted => "The clean database generation has not been explicitly accepted as healthy."@,
        ArchiveBlocker::RetentionHoldActive => "The ArchiveRecord has an active retention hold."@,
    }
}

/// The operator-facing sentence for a blocker of an archive whose deletion
/// becomes eligible at `eligible_at`.
pub fn blocker_summary(b: ArchiveBlocker, eligible_at: &str) -> (r: String)
    ensures
        r@ == spec_blocker_summary(b, eligible_at@),
{
    match b {
        ArchiveBlocker::NotRetained => String::from_str("The archive is no longer retained."),
        ArchiveBlocker::RetentionWindowActive => String::from_str("Archive deletion is unavailable until ").concat(eligible_at),
        ArchiveBlocker::GenerationMismatch => String::from_str("The ArchiveRecord does not belong to the active database generation."),
        ArchiveBlocker::GenerationNotAccepted => String::from_str("The clean database generation has not been explicitly accepted as healthy."),
        ArchiveBlocker::RetentionHoldActive => String::from_str("The ArchiveRecord has an active retention hold."),
    }
}

/// The deletion action's status: ready exactly when nothing blocks it.
pub fn deletion_status(blockers: &Vec<ArchiveBlocker>) -> (r: &'static str)
    ensures
        r@ == if blockers@.len() == 0 {
            "ready"@
        } else {
            "blocked"@
        },
{
    if blockers.len() == 0 {
        "ready"
    } else {
        "blocked"
    }
}

/// The text an operator must type to delete an archive.
pub fn deletion_confirmation(archive_id: &str) -> (r: String)
    ensures
        r@ == "DELETE ARCHIVE "@ + archive_id@,
{
    String::from_str("DELETE ARCHIVE ").concat(archive_id)
}

/// The text an operator must type to execute a retention preview.
pub fn retention_confirmation(preview_id: &str) -> (r: String)
    ensures
        r@ == "EXECUTE RETENTION "@ + preview_id@,
{
    String::from_str("EXECUTE RETENTION ").concat(preview_id)
}

/// What deleting an archive does outside the control plane.
pub fn deletion_effect_summary(database_claim: &str, archive_claim: &str) -> (r: String)
    ensures
        r@ == "Delete retained PVCs "@ + database_claim@ + " and "@ + archive_claim@
            + " in the configured PHarness namespace"@,
{
    String::from_str("Delete retained PVCs ").concat(database_claim).concat(" and ").concat(archive_claim).concat(
        " in the configured PHarness namespace",
    )
}

pub open spec fn confirmation_message(expected: Seq<char>) -> Seq<char> {
    "confirmation must exactly match "@ + spec_debug_quoted(expected)
}

fn confirmation_mismatch(expected: &str) -> (e: ApiError)
    ensures
        e.kind == ErrorKind::BadRequest,
        e.message@ == confirmation_message(expected@),
{
    ApiError::with_message(ErrorKind::BadRequest, String::from_str("confirmation must exactly match ").concat(debug_quoted(expected).as_str()))
}

/// The refusal of an archive deletion request, if any: the reviewed state
/// hash must still be current, nothing may block the deletion, and the
/// confirmation must name the archive.
pub open spec fn spec_deletion_refusal(
    archive_id: Seq<char>,
    reviewed_state_hash: Seq<char>,
    blockers: Seq<ArchiveBlocker>,
    request_state_hash: Seq<char>,
    confirmation: Seq<char>,
) -> Option<(ErrorKind, Seq<char>)> {
    if reviewed_state_hash != request_state_hash {
        Some((ErrorKind::Conflict, "ArchiveRecord changed after deletion review; refresh before retrying"@))
    } else if blockers.len() != 0 {
        Some((ErrorKind::Conflict, "ArchiveRecord is not eligible for deletion"@))
    } else if confirmation != "DELETE ARCHIVE "@ + archive_id {
        Some((ErrorKind::BadRequest, confirmation_message("DELETE ARCHIVE "@ + archive_id)))
    } else {
        None
    }
}

/// Decide whether a reviewed archive deletion may go ahead.
pub fn check_archive_deletion(
    archive_id: &str,
    reviewed_state_hash: &str,
    blockers: &Vec<ArchiveBlocker>,
    request_state_hash: &str,
    confirmation: &str,
) -> (r: Result<(), ApiError>)
    ensures
        r is Ok <==> spec_deletion_refusal(archive_id@, reviewed_state_hash@, blockers@, request_state_hash@, confirmation@) is None,
        r matches Err(e) ==> spec_deletion_refusal(archive_id@, reviewed_state_hash@, blockers@, request_state_hash@, confirmation@)
            == Some((e.kind, e.message@)),
{
    if !str_eq(reviewed_state_hash, request_state_hash) {
        return Err(ApiError::conflict("ArchiveRecord changed after deletion review; refresh before retrying"));
    }
    if blockers.len() != 0 {
        return Err(ApiError::conflict("ArchiveRecord is not eligible for deletion"));
    }
    let expected = deletion_confirmation(archive_id);
    if !str_eq(confirmation, expected.as_str()) {
        return Err(confirmation_mismatch(expected.as_str()));
    }
    Ok(())
}

/// An operator's request to record a retained database archive.
pub struct ArchiveRequest {
    pub archived_generation_id: String,
    pub database_claim: String,
    pub archive_claim: String,
    pub database_sha256: String,
    pub manifest_sha256: String,
    pub deletion_eligible_at: String,
    pub actor: String,
    pub reason: String,
}

/// The refusal of an archive request, if any, checked in order: actor and
/// reason, both claim names, both checksums, an initialized database
/// generation, a millisecond eligibility time, and one at least fourteen
/// days after `now`.
pub open spec fn spec_archive_request_refusal(req: ArchiveRequest, generation: Option<Seq<char>>, now: int) -> Option<(ErrorKind, Seq<char>)> {
    let eligible = spec_parse_unsigned(req.deletion_eligible_at@, u128::MAX as int);
    if spec_actor_reason_refusal(req.actor@, req.reason@) is Some {
        Some((ErrorKind::BadRequest, spec_actor_reason_refusal(req.actor@, req.reason@)->0))
    } else if !spec_is_kubernetes_name(encode_utf8(req.database_claim@)) || !spec_is_kubernetes_name(encode_utf8(req.archive_claim@)) {
        Some((ErrorKind::BadRequest, "archive claim name is not a normalized Kubernetes resource name"@))
    } else if !spec_is_sha256_checksum(encode_utf8(req.database_sha256@)) || !spec_is_sha256_checksum(encode_utf8(req.manifest_sha256@)) {
        Some((ErrorKind::BadRequest, "archive checksum must be sha256:<64 lowercase hex>"@))
    } else if generation is None {
        Some((ErrorKind::Conflict, "database generation is not initialized"@))
    } else if eligible is None {
        Some((ErrorKind::BadRequest, "deletion_eligible_at must be unix milliseconds"@))
    } else if eligible->0 < now + MIN_ARCHIVE_RETENTION_MILLIS {
        Some((ErrorKind::BadRequest, "archive deletion eligibility must be at least 14 days in the future"@))
    } else {
        None
    }
}

/// Decide whether an archive may be recorded at `now` in the active
/// database generation.
pub fn check_archive_request(req: &ArchiveRequest, generation: Option<&str>, now: u128) -> (r: Result<(), ApiError>)
    requires
        now <= u128::MAX - MIN_ARCHIVE_RETENTION_MILLIS,
    ensures
        r is Ok <==> spec_archive_request_refusal(*req, opt_str_view(generation), now as int) is None,
        r matches Err(e) ==> spec_archive_request_refusal(*req, opt_str_view(generation), now as int) == Some((e.kind, e.message@)),
{
    validate_actor_reason(req.actor.as_str(), req.reason.as_str())?;
    validate_kubernetes_resource_name(req.database_claim.as_str())?;
    validate_kubernetes_resource_name(req.archive_claim.as_str())?;
    validate_sha256(req.database_sha256.as_str())?;
    validate_sha256(req.manifest_sha256.as_str())?;
    if generation.is_none() {
        return Err(ApiError::conflict("database generation is not initialized"));
    }
    let eligible = match parse_unsigned(req.deletion_eligible_at.as_str(), u128::MAX) {
        Some(v) => v,
        None => {
            return Err(ApiError::bad_request("deletion_eligible_at must be unix milliseconds"));
        },
    };
    if eligible < now + MIN_ARCHIVE_RETENTION_MILLIS {
        return Err(ApiError::bad_request("archive deletion eligibility must be at least 14 days in the future"));
    }
    Ok(())
}

/// The refusal of a retention execution whose preview was made in another
/// database generation than the active one, if any.
pub open spec fn spec_generation_refusal(generation: Option<Seq<char>>, preview_generation: Seq<char>) -> Option<(ErrorKind, Seq<char>)> {
    match generation {
        None => Some((ErrorKind::Conflict, "database generation is not initialized"@)),
        Some(g) => if g != preview_generation {
            Some((ErrorKind::Conflict, "retention preview belongs to a different database generation"@))
        } else {
            None
        },
    }
}

/// A retention preview may only be executed in the generation it was made in.
pub fn check_preview_generation(generation: Option<&str>, preview_generation: &str) -> (r: Result<(), ApiError>)
    ensures
        r is Ok <==> spec_generation_refusal(opt_str_view(generation), preview_generation@) is None,
        r matches Err(e) ==> spec_generation_refusal(opt_str_view(generation), preview_generation@) == Some((e.kind, e.message@)),
{
    match generation {
        None => Err(ApiError::conflict("database generation is not initialized")),
        Some(g) => if !str_eq(g, preview_generation) {
            Err(ApiError::conflict("retention preview belongs to a different database generation"))
        } else {
            Ok(())
        },
    }
}

/// The refusal of an operator's retention execution request, if any: the
/// reviewed state hash must still be the preview's, the confirmation must
/// name the preview, and the preview must belong to the active generation.
pub open spec fn spec_retention_execution_refusal(
    preview_id: Seq<char>,
    preview_state_hash: Seq<char>,
    preview_generation: Seq<char>,
    request_state_hash: Seq<char>,
    confirmation: Seq<char>,
    generation: Option<Seq<char>>,
) -> Option<(ErrorKind, Seq<char>)> {
    if preview_state_hash != request_state_hash {
        Some((ErrorKind::Conflict, "retention preview changed after review; create a new preview"@))
    } else if confirmation != "EXECUTE RETENTION "@ + preview_id {
        Some((ErrorKind::BadRequest, confirmation_message("EXECUTE RETENTION "@ + preview_id)))
    } else {
        spec_generation_refusal(generation, preview_generation)
    }
}

/// Decide whether an operator may execute a reviewed retention preview.
pub fn check_retention_execution(
    preview_id: &str,
    preview_state_hash: &str,
    preview_generation: &str,
    request_state_hash: &str,
    confirmation: &str,
    generation: Option<&str>,
) -> (r: Result<(), ApiError>)
    ensures
        r is Ok <==> spec_retention_execution_refusal(preview_id@, preview_state_hash@, preview_generation@, request_state_hash@, confirmation@, opt_str_view(generation)) is None,
        r matches Err(e) ==> spec_retention_execution_refusal(preview_id@, preview_state_hash@, preview_generation@, request_state_hash@, confirmation@, opt_str_view(generation))
            == Some((e.kind, e.message@)),
{
    if !str_eq(preview_state_hash, request_state_hash) {
        return Err(ApiError::conflict("retention preview changed after review; create a new preview"));
    }
    let expected = retention_confirmation(preview_id);
    if !str_eq(confirmation, expected.as_str()) {
        return Err(confirmation_mismatch(expected.as_str()));
    }
    check_preview_generation(generation, preview_generation)
}

/// The candidates a preview lists must still be exactly the current ones.
pub fn check_preview_content(current_hash: &str, content_hash: &str) -> (r: Result<(), ApiError>)
    ensures
        r is Ok <==> current_hash@ == content_hash@,
        r matches Err(e) ==> e.kind == ErrorKind::Conflict && e.message@
            == "retention eligibility changed after preview; create a new preview"@,
{
    if !str_eq(current_hash, content_hash) {
        return Err(ApiError::conflict("retention eligibility changed after preview; create a new preview"));
    }
    Ok(())
}

pub open spec fn spec_workspace_resources(preview: Json) -> Seq<Json> {
    match preview.get("workspaces"@) {
        Some(Json::Array(items)) => items,
        _ => Seq::empty(),
    }
}

/// The workspace resources a retention preview lists for cleanup; none when
/// it lists no array of them.
pub fn workspace_resources(preview: &JsonValue) -> (r: Vec<JsonValue>)
    ensures
        items_view(r@) == spec_workspace_resources(preview@),
{
    proof {
        reveal_strlit("workspaces");
    }
    match preview.get("workspaces") {
        Some(JsonValue::Array(items)) => {
            let mut out: Vec<JsonValue> = Vec::new();
            let mut i: usize = 0;
            while i < items.len()
                invariant
                    i <= items@.len(),
                    out@.len() == i,
                    forall|k: int| 0 <= k < i ==> (#[trigger] out@[k])@ == items@[k]@,
                decreases items@.len() - i,
            {
                out.push(items[i].duplicate());
                i = i + 1;
            }
            proof {
                crate::json::lemma_array_view(*items);
                assert(items_view(out@) =~= items_view(items@));
            }
            out
        },
        _ => Vec::new(),
    }
}

/// When a retention preview made at `now` stops being executable.
pub fn preview_expiry(now: u128) -> (r: u128)
    requires
        now <= u128::MAX - PREVIEW_TTL_MILLIS,
    ensures
        r == now + PREVIEW_TTL_MILLIS,
{
    now + PREVIEW_TTL_MILLIS
}

/// The refusal of a retention hold request on a work item, if any: the
/// reviewed state hash must be current, and an expiry, when given, must be
/// a millisecond time after `now` and at most 365 days later.
pub open spec fn spec_hold_refusal(expected_state_hash: Seq<char>, request_state_hash: Seq<char>, expires_at: Option<Seq<char>>, now: int) -> Option<(ErrorKind, Seq<char>)> {
    if request_state_hash != expected_state_hash {
        Some((ErrorKind::Conflict, "WorkItem changed after retention review; refresh before creating the hold"@))
    } else {
        match expires_at {
            None => None,
            Some(t) => match spec_parse_unsigned(t, u128::MAX as int) {
                None => Some((ErrorKind::BadRequest, "expires_at must be unix milliseconds"@)),
                Some(e) => if e <= now || e > now + MAX_HOLD_MILLIS {
                    Some((ErrorKind::BadRequest, "retention hold must expire within the next 365 days"@))
                } else {
                    None
                },
            },
        }
    }
}

/// Decide whether a retention hold may be placed on a reviewed work item.
pub fn check_hold_request(expected_state_hash: &str, request_state_hash: &str, expires_at: Option<&str>, now: u128) -> (r: Result<(), ApiError>)
    requires
        now <= u128::MAX - MAX_HOLD_MILLIS,
    ensures
        r is Ok <==> spec_hold_refusal(expected_state_hash@, request_state_hash@, opt_str_view(expires_at), now as int) is None,
        r matches Err(e) ==> spec_hold_refusal(expected_state_hash@, request_state_hash@, opt_str_view(expires_at), now as int) == Some((e.kind, e.message@)),
{
    if !str_eq(request_state_hash, expected_state_hash) {
        return Err(ApiError::conflict("WorkItem changed after retention review; refresh before creating the hold"));
    }
    match expires_at {
        None => Ok(()),
        Some(t) => match parse_unsigned(t, u128::MAX) {
            None => Err(ApiError::bad_request("expires_at must be unix milliseconds")),
            Some(e) => if e <= now || e > now + MAX_HOLD_MILLIS {
                Err(ApiError::bad_request("retention hold must expire within the next 365 days"))
            } else {
                Ok(())
            },
        },
    }
}

/// How often scheduled retention passes run, in seconds, unless configured.
pub const DEFAULT_RETENTION_INTERVAL_SECONDS: u64 = 86400;

pub open spec fn spec_retention_interval(configured: Option<Seq<char>>) -> int {
    let parsed = match configured {
        Some(t) => match spec_parse_unsigned(t, u64::MAX as int) {
            Some(v) => v,
            None => DEFAULT_RETENTION_INTERVAL_SECONDS as int,
        },
        None => DEFAULT_RETENTION_INTERVAL_SECONDS as int,
    };
    if parsed < 3600 {
        3600
    } else if parsed > 604800 {
        604800
    } else {
        parsed
    }
}

/// The interval between scheduled retention passes: the configured whole
/// number of seconds, a day when it is absent or unreadable, kept between
/// one hour and one week.
pub fn retention_interval_seconds(configured: Option<&str>) -> (r: u64)
    ensures
        r as int == spec_retention_interval(opt_str_view(configured)),
{
    let parsed: u64 = match configured {
        Some(t) => match parse_unsigned(t, 18446744073709551615u128) {
            Some(v) => v as u64,
            None => DEFAULT_RETENTION_INTERVAL_SECONDS,
        },
        None => DEFAULT_RETENTION_INTERVAL_SECONDS,
    };
    if parsed < 3600 {
        3600
    } else if parsed > 604800 {
        604800
    } else {
        parsed
    }
}

pub open spec fn spec_ascii_lower(c: char) -> char {
    if 'A' <= c && c <= 'Z' {
        ((c as u8) + 32) as char
    } else {
        c
    }
}

/// A text with its ASCII capitals made small, as `str::to_ascii_lowercase`.
pub open spec fn spec_ascii_lowercase(s: Seq<char>) -> Seq<char> {
    s.map_values(|c: char| spec_ascii_lower(c))
}

fn ascii_lowercase_is(value: &str, lower: &str) -> (r: bool)
    ensures
        r == (spec_ascii_lowercase(value@) == lower@),
{
    let n = value.unicode_len();
    if n != lower.unicode_len() {
        proof {
            assert(spec_ascii_lowercase(value@).len() == n);
        }
        return false;
    }
    let mut i: usize = 0;
    while i < n
        invariant
            n == value@.len(),
            n == lower@.len(),
            i <= n,
            forall|k: int| 0 <= k < i ==> spec_ascii_lower(#[trigger] value@[k]) == lower@[k],
        decreases n - i,
    {
        let c = value.get_char(i);
        let l = if 'A' <= c && c <= 'Z' {
            ((c as u8) + 32) as char
        } else {
            c
        };
        if l != lower.get_char(i) {
            proof {
                assert(spec_ascii_lowercase(value@)[i as int] != lower@[i as int]);
            }
            return false;
        }
        i = i + 1;
    }
    proof {
        assert(spec_ascii_lowercase(value@) =~= lower@);
    }
    true
}

pub open spec fn spec_flag_enabled(value: Option<Seq<char>>, default: bool) -> bool {
    match value {
        Some(v) => {
            let l = spec_ascii_lowercase(v);
            l == "1"@ || l == "true"@ || l == "yes"@
        },
        None => default,
    }
}

/// A boolean switch of the deployment's configuration: set when its value
/// reads `1`, `true` or `yes` in any ASCII case, unset for any other value,
/// and `default` when it is absent.
pub fn flag_enabled(value: Option<&str>, default: bool) -> (r: bool)
    ensures
        r == spec_flag_enabled(opt_str_view(value), default),
{
    match value {
        Some(v) => ascii_lowercase_is(v, "1") || ascii_lowercase_is(v, "true") || ascii_lowercase_is(v, "yes"),
        None => default,
    }
}

/// Whether a scheduled retention pass goes on to execute its preview: only
/// when previews are not restricted to review (the default) and automatic
/// execution is switched on (off by default).
pub fn scheduled_execution_enabled(preview_only: Option<&str>, automatic_execution: Option<&str>) -> (r: bool)
    ensures
        r == (!spec_flag_enabled(opt_str_view(preview_only), true) && spec_flag_enabled(opt_str_view(automatic_execution), false)),
{
    !flag_enabled(preview_only, true) && flag_enabled(automatic_execution, false)
}

/// An archive that a live retention hold protects is never deletable,
/// whatever was reviewed and confirmed.
pub proof fn lemma_held_archive_not_deletable(
    archive: ArchiveRecord,
    generation: Option<Seq<char>>,
    generation_accepted: bool,
    holds: Seq<RetentionHold>,
    now: int,
    reviewed_state_hash: Seq<char>,
    request_state_hash: Seq<char>,
    confirmation: Seq<char>,
)
    requires
        spec_any_hold_protects(holds, archive.id@, now),
    ensures
        spec_deletion_refusal(
            archive.id@,
            reviewed_state_hash,
            spec_archive_blockers(archive, generation, generation_accepted, holds, now),
            request_state_hash,
            confirmation,
        ) is Some,
{
    let b = spec_archive_blockers(archive, generation, generation_accepted, holds, now);
    assert(b.len() > 0);
}

/// A deletion goes ahead only for the state that was reviewed, with nothing
/// blocking it, confirmed by the archive's own phrase.
pub proof fn lemma_deletion_needs_review_and_confirmation(
    archive_id: Seq<char>,
    reviewed_state_hash: Seq<char>,
    blockers: Seq<ArchiveBlocker>,
    request_state_hash: Seq<char>,
    confirmation: Seq<char>,
)
    requires
        spec_deletion_refusal(archive_id, reviewed_state_hash, blockers, request_state_hash, confirmation) is None,
    ensures
        reviewed_state_hash == request_state_hash,
        blockers.len() == 0,
        confirmation == "DELETE ARCHIVE "@ + archive_id,
{
}

/// A retention hold that is accepted expires, if at all, after the time of
/// the request and no more than 365 days later.
pub proof fn lemma_accepted_hold_expiry_is_bounded(
    expected_state_hash: Seq<char>,
    request_state_hash: Seq<char>,
    expires_at: Seq<char>,
    now: int,
)
    requires
        spec_hold_refusal(expected_state_hash, request_state_hash, Some(expires_at), now) is None,
    ensures
        spec_parse_unsigned(expires_at, u128::MAX as int) matches Some(e) && now < e <= now + MAX_HOLD_MILLIS,
{
}

pub open spec fn spec_blocker_json(b: ArchiveBlocker, eligible_at: Seq<char>) -> Json {
    Json::Object(seq![("code"@, Json::Str(spec_blocker_code(b))), ("summary"@, Json::Str(spec_blocker_summary(b, eligible_at)))])
}

/// The blockers as reported: code and summary of each, in order.
pub open spec fn spec_blockers_json(blockers: Seq<ArchiveBlocker>, eligible_at: Seq<char>) -> Seq<Json> {
    Seq::new(blockers.len(), |i: int| spec_blocker_json(blockers[i], eligible_at))
}

pub fn blockers_json(blockers: &Vec<ArchiveBlocker>, eligible_at: &str) -> (r: JsonValue)
    ensures
        r@ == Json::Array(spec_blockers_json(blockers@, eligible_at@)),
{
    let mut items: Vec<JsonValue> = Vec::new();
    let mut i: usize = 0;
    while i < blockers.len()
        invariant
            i <= blockers@.len(),
            items@.len() == i,
            forall|k: int| 0 <= k < i ==> (#[trigger] items@[k])@ == spec_blocker_json(blockers@[k], eligible_at@),
        decreases blockers@.len() - i,
    {
        let b = blockers[i];
        let mut es: Vec<(String, JsonValue)> = Vec::new();
        obj_insert(&mut es, "code", JsonValue::Str(String::from_str(blocker_code(b))));
        obj_insert(&mut es, "summary", JsonValue::Str(blocker_summary(b, eligible_at)));
        proof {
            lemma_object_view(es);
            assert(entries_view(es@) =~= spec_blocker_json(b, eligible_at@)->Object_0);
        }
        items.push(JsonValue::Object(es));
        i = i + 1;
    }
    proof {
        lemma_array_view(items);
        assert(items_view(items@) =~= spec_blockers_json(blockers@, eligible_at@));
    }
    JsonValue::Array(items)
}

/// The stored facts of an archive that its deletion review is bound to.
pub struct ArchiveClaims {
    pub archived_generation_id: String,
    pub database_claim: String,
    pub archive_claim: String,
    pub database_sha256: String,
    pub manifest_sha256: String,
}

/// The material whose hash an operator reviews before deleting an archive:
/// the archive's identity, claims, checksums and eligibility, whether the
/// generation is accepted, and the blockers. Members are in key order.
pub open spec fn spec_archive_state_material(a: ArchiveRecord, c: ArchiveClaims, accepted: bool, blockers: Seq<ArchiveBlocker>) -> Json {
    Json::Object(
        seq![
            ("archive_claim"@, Json::Str(c.archive_claim@)),
            ("archive_id"@, Json::Str(a.id@)),
            ("archived_generation_id"@, Json::Str(c.archived_generation_id@)),
            ("blockers"@, Json::Array(spec_blockers_json(blockers, a.deletion_eligible_at@))),
            ("database_claim"@, Json::Str(c.database_claim@)),
            ("database_generation_id"@, Json::Str(a.database_generation_id@)),
            ("database_sha256"@, Json::Str(c.database_sha256@)),
            ("deletion_eligible_at"@, Json::Str(a.deletion_eligible_at@)),
            ("generation_accepted"@, Json::Bool(accepted)),
            ("manifest_sha256"@, Json::Str(c.manifest_sha256@)),
            ("status"@, Json::Str(a.status@)),
        ],
    )
}

fn text(s: &str) -> (r: JsonValue)
    ensures
        r@ == Json::Str(s@),
{
    JsonValue::Str(String::from_str(s))
}

pub fn archive_state_material(a: &ArchiveRecord, c: &ArchiveClaims, accepted: bool, blockers: &Vec<ArchiveBlocker>) -> (r: JsonValue)
    ensures
        r@ == spec_archive_state_material(*a, *c, accepted, blockers@),
{
    let mut es: Vec<(String, JsonValue)> = Vec::new();
    obj_insert(&mut es, "archive_claim", text(c.archive_claim.as_str()));
    obj_insert(&mut es, "archive_id", text(a.id.as_str()));
    obj_insert(&mut es, "archived_generation_id", text(c.archived_generation_id.as_str()));
    obj_insert(&mut es, "blockers", blockers_json(blockers, a.deletion_eligible_at.as_str()));
    obj_insert(&mut es, "database_claim", text(c.database_claim.as_str()));
    obj_insert(&mut es, "database_generation_id", text(a.database_generation_id.as_str()));
    obj_insert(&mut es, "database_sha256", text(c.database_sha256.as_str()));
    obj_insert(&mut es, "deletion_eligible_at", text(a.deletion_eligible_at.as_str()));
    obj_insert(&mut es, "generation_accepted", JsonValue::Bool(accepted));
    obj_insert(&mut es, "manifest_sha256", text(c.manifest_sha256.as_str()));
    obj_insert(&mut es, "status", text(a.status.as_str()));
    proof {
        lemma_object_view(es);
        assert(entries_view(es@) =~= spec_archive_state_material(*a, *c, accepted, blockers@)->Object_0);
    }
    JsonValue::Object(es)
}

/// The deletion action offered on an archive, bound to the hash of its
/// reviewed state material. Members are in key order.
pub open spec fn spec_deletion_action(a: ArchiveRecord, c: ArchiveClaims, blockers: Seq<ArchiveBlocker>, state_hash: Seq<char>) -> Json {
    Json::Object(
        seq![
            ("blockers"@, Json::Array(spec_blockers_json(blockers, a.deletion_eligible_at@))),
            ("confirmation"@, Json::Str("DELETE ARCHIVE "@ + a.id@)),
            ("effect_class"@, Json::Str("destructive_external"@)),
            ("external_effect_summary"@, Json::Str("Delete retained PVCs "@ + c.database_claim@ + " and "@ + c.archive_claim@
                + " in the configured PHarness namespace"@)),
            ("id"@, Json::Str("delete_archive"@)),
            ("state_hash"@, Json::Str(state_hash)),
            ("status"@, Json::Str(if blockers.len() == 0 { "ready"@ } else { "blocked"@ })),
        ],
    )
}

pub fn deletion_action(a: &ArchiveRecord, c: &ArchiveClaims, blockers: &Vec<ArchiveBlocker>, state_hash: &str) -> (r: JsonValue)
    ensures
        r@ == spec_deletion_action(*a, *c, blockers@, state_hash@),
{
    let mut es: Vec<(String, JsonValue)> = Vec::new();
    obj_insert(&mut es, "blockers", blockers_json(blockers, a.deletion_eligible_at.as_str()));
    obj_insert(&mut es, "confirmation", JsonValue::Str(deletion_confirmation(a.id.as_str())));
    obj_insert(&mut es, "effect_class", text("destructive_external"));
    obj_insert(
        &mut es,
        "external_effect_summary",
        JsonValue::Str(deletion_effect_summary(c.database_claim.as_str(), c.archive_claim.as_str())),
    );
    obj_insert(&mut es, "id", text("delete_archive"));
    obj_insert(&mut es, "state_hash", text(state_hash));
    obj_insert(&mut es, "status", text(deletion_status(blockers)));
    proof {
        lemma_object_view(es);
        assert(entries_view(es@) =~= spec_deletion_action(*a, *c, blockers@, state_hash@)->Object_0);
    }
    JsonValue::Object(es)
}

} // verus!
