use pharness_api::data_lifecycle::{
    archive_deletion_blockers, blocker_code, blocker_summary, check_archive_deletion, check_archive_request,
    check_hold_request, check_preview_content, check_preview_generation, check_retention_execution,
    deletion_confirmation, deletion_effect_summary, deletion_status, flag_enabled, hold_protects, preview_expiry,
    retention_interval_seconds, scheduled_execution_enabled, workspace_resources, ArchiveBlocker, ArchiveRecord,
    ArchiveRequest, RetentionHold, archive_state_material, deletion_action, ArchiveClaims,
};
use pharness_api::json::json_equal;
use pharness_api::error::ErrorKind;
use pharness_api::json::{JsonNumber, JsonValue};
use pharness_api::text::parse_unsigned;

const NOW: u128 = 1_700_000_000_000;
const DAY: u128 = 24 * 60 * 60 * 1_000;

fn archive(status: &str, eligible_at: &str) -> ArchiveRecord {
    ArchiveRecord {
        id: "archive_1".to_string(),
        status: status.to_string(),
        deleted: false,
        deletion_eligible_at: eligible_at.to_string(),
        database_generation_id: "gen_1".to_string(),
    }
}

fn hold(kind: &str, subject: &str, released: bool, expires_at: Option<&str>) -> RetentionHold {
    RetentionHold {
        subject_kind: kind.to_string(),
        subject_id: subject.to_string(),
        released,
        expires_at: expires_at.map(|v| v.to_string()),
    }
}

fn request() -> ArchiveRequest {
    ArchiveRequest {
        archived_generation_id: "gen_0".to_string(),
        database_claim: "pharness-db-archive".to_string(),
        archive_claim: "pharness-archive-0".to_string(),
        database_sha256: format!("sha256:{}", "a".repeat(64)),
        manifest_sha256: format!("sha256:{}", "0".repeat(64)),
        deletion_eligible_at: (NOW + 15 * DAY).to_string(),
        actor: "operator".to_string(),
        reason: "archive the previous generation".to_string(),
    }
}

#[test]
fn unsigned_parsing_follows_std() {
    assert_eq!(parse_unsigned("42", u128::MAX), Some(42));
    assert_eq!(parse_unsigned("+7", u128::MAX), Some(7));
    assert_eq!(parse_unsigned("-7", u128::MAX), None);
    assert_eq!(parse_unsigned("", u128::MAX), None);
    assert_eq!(parse_unsigned("+", u128::MAX), None);
    assert_eq!(parse_unsigned("1x", u128::MAX), None);
    assert_eq!(parse_unsigned("340282366920938463463374607431768211455", u128::MAX), Some(u128::MAX));
    assert_eq!(parse_unsigned("340282366920938463463374607431768211456", u128::MAX), None);
    assert_eq!(parse_unsigned("18446744073709551616", u64::MAX as u128), None);
}

#[test]
fn retained_eligible_archive_is_ready() {
    let a = archive("retained", &(NOW - 1).to_string());
    let blockers = archive_deletion_blockers(&a, Some("gen_1"), true, &vec![], NOW);
    assert!(blockers.is_empty());
    assert_eq!(deletion_status(&blockers), "ready");
}

#[test]
fn every_archive_blocker_is_reported_in_order() {
    let mut a = archive("deleted", "not-a-number");
    a.deleted = true;
    let holds = vec![hold("archive", "archive_1", false, None)];
    let blockers = archive_deletion_blockers(&a, Some("gen_2"), false, &holds, NOW);
    assert_eq!(
        blockers,
        vec![
            ArchiveBlocker::NotRetained,
            ArchiveBlocker::RetentionWindowActive,
            ArchiveBlocker::GenerationMismatch,
            ArchiveBlocker::GenerationNotAccepted,
            ArchiveBlocker::RetentionHoldActive,
        ]
    );
    assert_eq!(deletion_status(&blockers), "blocked");
    let codes: Vec<&str> = blockers.iter().map(|b| blocker_code(*b)).collect();
    assert_eq!(
        codes,
        vec![
            "archive_not_retained",
            "retention_window_active",
            "database_generation_mismatch",
            "database_generation_not_accepted",
            "retention_hold_active",
        ]
    );
    assert_eq!(
        blocker_summary(ArchiveBlocker::RetentionWindowActive, "1800000000000"),
        "Archive deletion is unavailable until 1800000000000"
    );
}

#[test]
fn missing_generation_blocks_deletion() {
    let a = archive("retained", "0");
    let blockers = archive_deletion_blockers(&a, None, true, &vec![], NOW);
    assert_eq!(blockers, vec![ArchiveBlocker::GenerationMismatch]);
}

#[test]
fn only_live_holds_on_the_archive_protect_it() {
    let now_text = NOW.to_string();
    let later = (NOW + 1).to_string();
    assert!(hold_protects(&hold("archive", "archive_1", false, None), "archive_1", NOW));
    assert!(hold_protects(&hold("archive", "archive_1", false, Some(&later)), "archive_1", NOW));
    assert!(hold_protects(&hold("archive", "archive_1", false, Some("soon")), "archive_1", NOW));
    assert!(!hold_protects(&hold("archive", "archive_1", false, Some(&now_text)), "archive_1", NOW));
    assert!(!hold_protects(&hold("archive", "archive_1", true, None), "archive_1", NOW));
    assert!(!hold_protects(&hold("work_item", "archive_1", false, None), "archive_1", NOW));
    assert!(!hold_protects(&hold("archive", "archive_2", false, None), "archive_1", NOW));
}

#[test]
fn deletion_texts() {
    assert_eq!(deletion_confirmation("archive_1"), "DELETE ARCHIVE archive_1");
    assert_eq!(
        deletion_effect_summary("db-claim", "archive-claim"),
        "Delete retained PVCs db-claim and archive-claim in the configured PHarness namespace"
    );
}

#[test]
fn archive_deletion_requires_review_readiness_and_confirmation() {
    let ready: Vec<ArchiveBlocker> = vec![];
    assert!(check_archive_deletion("archive_1", "h1", &ready, "h1", "DELETE ARCHIVE archive_1").is_ok());

    let stale = check_archive_deletion("archive_1", "h1", &ready, "h0", "DELETE ARCHIVE archive_1").err().unwrap();
    assert_eq!(stale.kind, ErrorKind::Conflict);
    assert_eq!(stale.message, "ArchiveRecord changed after deletion review; refresh before retrying");

    let blocked = vec![ArchiveBlocker::RetentionHoldActive];
    let not_ready = check_archive_deletion("archive_1", "h1", &blocked, "h1", "DELETE ARCHIVE archive_1").err().unwrap();
    assert_eq!(not_ready.kind, ErrorKind::Conflict);
    assert_eq!(not_ready.message, "ArchiveRecord is not eligible for deletion");

    let wrong = check_archive_deletion("archive_1", "h1", &ready, "h1", "delete archive archive_1").err().unwrap();
    assert_eq!(wrong.kind, ErrorKind::BadRequest);
    assert_eq!(wrong.message, "confirmation must exactly match \"DELETE ARCHIVE archive_1\"");
}

#[test]
fn archive_request_checks_run_in_order() {
    assert!(check_archive_request(&request(), Some("gen_1"), NOW).is_ok());

    let mut r = request();
    r.actor = "  ".to_string();
    let e = check_archive_request(&r, Some("gen_1"), NOW).err().unwrap();
    assert_eq!(e.message, "actor is required and must be at most 200 characters");

    let mut r = request();
    r.reason = "x".repeat(1_001);
    let e = check_archive_request(&r, Some("gen_1"), NOW).err().unwrap();
    assert_eq!(e.message, "reason is required and must be at most 1,000 characters");

    let mut r = request();
    r.archive_claim = "-bad".to_string();
    let e = check_archive_request(&r, Some("gen_1"), NOW).err().unwrap();
    assert_eq!(e.kind, ErrorKind::BadRequest);
    assert_eq!(e.message, "archive claim name is not a normalized Kubernetes resource name");

    let mut r = request();
    r.manifest_sha256 = format!("sha256:{}", "A".repeat(64));
    let e = check_archive_request(&r, Some("gen_1"), NOW).err().unwrap();
    assert_eq!(e.message, "archive checksum must be sha256:<64 lowercase hex>");

    let e = check_archive_request(&request(), None, NOW).err().unwrap();
    assert_eq!(e.kind, ErrorKind::Conflict);
    assert_eq!(e.message, "database generation is not initialized");

    let mut r = request();
    r.deletion_eligible_at = "tomorrow".to_string();
    let e = check_archive_request(&r, Some("gen_1"), NOW).err().unwrap();
    assert_eq!(e.message, "deletion_eligible_at must be unix milliseconds");

    let mut r = request();
    r.deletion_eligible_at = (NOW + 14 * DAY - 1).to_string();
    let e = check_archive_request(&r, Some("gen_1"), NOW).err().unwrap();
    assert_eq!(e.message, "archive deletion eligibility must be at least 14 days in the future");

    let mut r = request();
    r.deletion_eligible_at = (NOW + 14 * DAY).to_string();
    assert!(check_archive_request(&r, Some("gen_1"), NOW).is_ok());
}

#[test]
fn retention_execution_checks() {
    assert!(check_retention_execution("p1", "s1", "gen_1", "s1", "EXECUTE RETENTION p1", Some("gen_1")).is_ok());

    let e = check_retention_execution("p1", "s1", "gen_1", "s0", "EXECUTE RETENTION p1", Some("gen_1")).err().unwrap();
    assert_eq!(e.kind, ErrorKind::Conflict);
    assert_eq!(e.message, "retention preview changed after review; create a new preview");

    let e = check_retention_execution("p1", "s1", "gen_1", "s1", "EXECUTE RETENTION", Some("gen_1")).err().unwrap();
    assert_eq!(e.kind, ErrorKind::BadRequest);
    assert_eq!(e.message, "confirmation must exactly match \"EXECUTE RETENTION p1\"");

    let e = check_retention_execution("p1", "s1", "gen_1", "s1", "EXECUTE RETENTION p1", None).err().unwrap();
    assert_eq!(e.message, "database generation is not initialized");

    let e = check_retention_execution("p1", "s1", "gen_1", "s1", "EXECUTE RETENTION p1", Some("gen_2")).err().unwrap();
    assert_eq!(e.kind, ErrorKind::Conflict);
    assert_eq!(e.message, "retention preview belongs to a different database generation");

    assert!(check_preview_generation(Some("gen_1"), "gen_1").is_ok());
    assert!(check_preview_content("c1", "c1").is_ok());
    let e = check_preview_content("c2", "c1").err().unwrap();
    assert_eq!(e.kind, ErrorKind::Conflict);
    assert_eq!(e.message, "retention eligibility changed after preview; create a new preview");
}

#[test]
fn preview_workspaces_are_listed() {
    let ws = JsonValue::Array(vec![JsonValue::Str("ws-a".to_string()), JsonValue::Number(JsonNumber::PosInt(3))]);
    let preview = JsonValue::Object(vec![("workspaces".to_string(), ws)]);
    let out = workspace_resources(&preview);
    assert_eq!(out.len(), 2);
    assert!(matches!(&out[0], JsonValue::Str(s) if s == "ws-a"));
    assert!(matches!(&out[1], JsonValue::Number(JsonNumber::PosInt(3))));

    let not_array = JsonValue::Object(vec![("workspaces".to_string(), JsonValue::Str("x".to_string()))]);
    assert!(workspace_resources(&not_array).is_empty());
    assert!(workspace_resources(&JsonValue::Null).is_empty());
}

#[test]
fn preview_expires_after_fifteen_minutes() {
    assert_eq!(preview_expiry(NOW), NOW + 15 * 60 * 1_000);
}

#[test]
fn retention_hold_requests() {
    assert!(check_hold_request("h", "h", None, NOW).is_ok());
    assert!(check_hold_request("h", "h", Some(&(NOW + 365 * DAY).to_string()), NOW).is_ok());

    let e = check_hold_request("h", "g", None, NOW).err().unwrap();
    assert_eq!(e.kind, ErrorKind::Conflict);
    assert_eq!(e.message, "WorkItem changed after retention review; refresh before creating the hold");

    let e = check_hold_request("h", "h", Some("next week"), NOW).err().unwrap();
    assert_eq!(e.message, "expires_at must be unix milliseconds");

    let e = check_hold_request("h", "h", Some(&NOW.to_string()), NOW).err().unwrap();
    assert_eq!(e.message, "retention hold must expire within the next 365 days");
    let e = check_hold_request("h", "h", Some(&(NOW + 365 * DAY + 1).to_string()), NOW).err().unwrap();
    assert_eq!(e.kind, ErrorKind::BadRequest);
    assert_eq!(e.message, "retention hold must expire within the next 365 days");
}

#[test]
fn retention_scheduling_configuration() {
    assert_eq!(retention_interval_seconds(None), 86_400);
    assert_eq!(retention_interval_seconds(Some("7200")), 7_200);
    assert_eq!(retention_interval_seconds(Some("60")), 3_600);
    assert_eq!(retention_interval_seconds(Some("99999999")), 604_800);
    assert_eq!(retention_interval_seconds(Some("hourly")), 86_400);

    assert!(flag_enabled(Some("TRUE"), false));
    assert!(flag_enabled(Some("Yes"), false));
    assert!(flag_enabled(Some("1"), false));
    assert!(!flag_enabled(Some("on"), true));
    assert!(flag_enabled(None, true));
    assert!(!flag_enabled(None, false));

    assert!(!scheduled_execution_enabled(None, Some("true")));
    assert!(scheduled_execution_enabled(Some("false"), Some("true")));
    assert!(!scheduled_execution_enabled(Some("false"), None));
}

fn claims() -> ArchiveClaims {
    ArchiveClaims {
        archived_generation_id: "gen_0".to_string(),
        database_claim: "db-claim".to_string(),
        archive_claim: "archive-claim".to_string(),
        database_sha256: "sha256:db".to_string(),
        manifest_sha256: "sha256:manifest".to_string(),
    }
}

fn t(text: &str) -> JsonValue {
    JsonValue::Str(text.to_string())
}

fn o(members: Vec<(&str, JsonValue)>) -> JsonValue {
    JsonValue::Object(members.into_iter().map(|(k, v)| (k.to_string(), v)).collect())
}

#[test]
fn deletion_review_material_and_action() {
    let a = archive("retained", "100");
    let blockers = vec![ArchiveBlocker::RetentionWindowActive];
    let blocker_list = JsonValue::Array(vec![o(vec![
        ("code", t("retention_window_active")),
        ("summary", t("Archive deletion is unavailable until 100")),
    ])]);
    let expected = o(vec![
        ("archive_claim", t("archive-claim")),
        ("archive_id", t("archive_1")),
        ("archived_generation_id", t("gen_0")),
        ("blockers", blocker_list.duplicate()),
        ("database_claim", t("db-claim")),
        ("database_generation_id", t("gen_1")),
        ("database_sha256", t("sha256:db")),
        ("deletion_eligible_at", t("100")),
        ("generation_accepted", JsonValue::Bool(true)),
        ("manifest_sha256", t("sha256:manifest")),
        ("status", t("retained")),
    ]);
    assert!(json_equal(&archive_state_material(&a, &claims(), true, &blockers), &expected));
    let action = o(vec![
        ("blockers", blocker_list),
        ("confirmation", t("DELETE ARCHIVE archive_1")),
        ("effect_class", t("destructive_external")),
        ("external_effect_summary", t("Delete retained PVCs db-claim and archive-claim in the configured PHarness namespace")),
        ("id", t("delete_archive")),
        ("state_hash", t("sha256:state")),
        ("status", t("blocked")),
    ]);
    assert!(json_equal(&deletion_action(&a, &claims(), &blockers, "sha256:state"), &action));
}
