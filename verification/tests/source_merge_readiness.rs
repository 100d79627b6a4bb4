use pharness_api::error::ErrorKind;
use pharness_api::hosted_controller::source_merge::{
    check_merge_receipt_size, check_merge_write_ready, check_merge_writer, check_pre_merge, PreMergeChecks,
};
use pharness_api::json::{JsonNumber, JsonValue};

fn obj(members: Vec<(&str, JsonValue)>) -> JsonValue {
    JsonValue::Object(members.into_iter().map(|(k, v)| (k.to_string(), v)).collect())
}

fn checks(expires_at: &str) -> PreMergeChecks {
    PreMergeChecks {
        authoritative_rules_succeeded: true,
        status: "passing".to_string(),
        required_checks: JsonValue::Array(vec![
            obj(vec![("name", JsonValue::Str("lint".to_string())), ("app_id", JsonValue::Number(JsonNumber::PosInt(7)))]),
            obj(vec![("name", JsonValue::Str("ci/test".to_string())), ("app_id", JsonValue::Number(JsonNumber::PosInt(15368)))]),
        ]),
        head_sha: "h".repeat(40),
        required_set_hash: "sha256:set".to_string(),
        expires_at: expires_at.to_string(),
    }
}

#[test]
fn merge_is_written_only_for_ready_active_work() {
    assert!(check_merge_write_ready(true, "active", "running", false, "waiting_merge", "approved").is_ok());
    let e = check_merge_write_ready(false, "active", "running", false, "waiting_merge", "approved").err().unwrap();
    assert_eq!(e.message, "source merge is withheld while PHarness is draining or read-only");
    let e = check_merge_write_ready(true, "paused", "running", false, "waiting_merge", "approved").err().unwrap();
    assert_eq!(e.kind, ErrorKind::Conflict);
    assert_eq!(e.message, "source merge is paused, stale, closed or not ready");
    assert!(check_merge_write_ready(true, "active", "running", true, "waiting_merge", "approved").is_err());
    assert!(check_merge_write_ready(true, "active", "running", false, "merged", "approved").is_err());
}

#[test]
fn merge_needs_fresh_checks_for_the_exact_head() {
    let head = "h".repeat(40);
    assert!(check_pre_merge(Some(&checks("2000")), "ci/test", 15368, &head, "sha256:set", 1_999).is_ok());
    let e = check_pre_merge(Some(&checks("2000")), "ci/test", 15368, &head, "sha256:set", 2_000).err().unwrap();
    assert_eq!(e.message, "source merge requires fresh checks for the exact approved head");
    assert!(check_pre_merge(Some(&checks("2000")), "ci/test", 1, &head, "sha256:set", 0).is_err());
    assert!(check_pre_merge(Some(&checks("2000")), "ci/other", 15368, &head, "sha256:set", 0).is_err());
    assert!(check_pre_merge(Some(&checks("2000")), "ci/test", 15368, "other", "sha256:set", 0).is_err());
    assert!(check_pre_merge(Some(&checks("2000")), "ci/test", 15368, &head, "sha256:other", 0).is_err());
    assert!(check_pre_merge(Some(&checks("later")), "ci/test", 15368, &head, "sha256:set", 0).is_err());
    let mut failing = checks("2000");
    failing.status = "failing".to_string();
    assert!(check_pre_merge(Some(&failing), "ci/test", 15368, &head, "sha256:set", 0).is_err());
    let e = check_pre_merge(None, "ci/test", 15368, &head, "sha256:set", 0).err().unwrap();
    assert_eq!(e.message, "source merge has no pre-merge check evidence");
}

#[test]
fn merge_writer_must_allow_the_repository() {
    let allowed = vec!["https://github.com/org/app.git".to_string()];
    assert!(check_merge_writer(Some("https://api.github.com"), &allowed, "https://github.com/org/app.git").is_ok());
    let e = check_merge_writer(Some("https://ghe.example/api"), &allowed, "https://github.com/org/app.git").err().unwrap();
    assert_eq!(e.message, "source merge repository or provider is not writer-allowlisted");
    assert!(check_merge_writer(Some("https://api.github.com"), &allowed, "https://github.com/org/other.git").is_err());
    let e = check_merge_writer(None, &allowed, "x").err().unwrap();
    assert_eq!(e.message, "source merge executor is unavailable");
}

#[test]
fn merge_receipts_stay_within_their_limit() {
    assert!(check_merge_receipt_size(65_536).is_ok());
    let e = check_merge_receipt_size(65_537).err().unwrap();
    assert_eq!(e.kind, ErrorKind::BadRequest);
    assert_eq!(e.message, "source merge receipt exceeds its evidence limit");
}
