use pharness_api::approval_policy::{approval_gate_kind, approval_gate_uses_dedicated_lifecycle_action};
use pharness_api::clock::{current_millis, millis_timestamp};
use pharness_api::error::ErrorKind;
use pharness_api::execution_checks::{argo_executor_poll_seconds, execution_check};
use pharness_api::json::{json_equal, set_member, JsonNumber, JsonValue};
use pharness_api::text::{
    contains_str, decimal_i64, decimal_u128, ends_with_str, is_blank, parse_i64, starts_with_str, str_eq,
    trim_end_matches, trim_start_matches, trim_str,
};
use pharness_api::validation::{
    clean_optional_text, is_bounded_code, is_git_sha, is_snake_code, normalized_executor_error_code,
    safe_relative_gitops_path, validate_actor_reason, validate_kubernetes_resource_name, validate_sha256,
};

#[test]
fn text_helpers() {
    assert!(str_eq("abc", "abc"));
    assert!(!str_eq("abc", "abd"));
    assert!(is_blank(" \t\n"));
    assert!(!is_blank(" x "));
    assert_eq!(trim_str("  hello world \n"), "hello world");
    assert!(contains_str("registry/web@sha256:abc", "@sha256:"));
    assert!(!contains_str("registry/web:latest", "@sha256:"));
    assert!(starts_with_str("sha256:abc", "sha256:"));
    assert!(ends_with_str("repo/", "/"));
    assert_eq!(trim_start_matches("sha256:sha256:abc", "sha256:"), "abc");
    assert_eq!(trim_end_matches("https://example/app///", "/"), "https://example/app");
}

#[test]
fn decimal_text_round_trips() {
    assert_eq!(decimal_u128(0), "0");
    assert_eq!(decimal_u128(1_234_567), "1234567");
    assert_eq!(decimal_u128(u128::MAX), u128::MAX.to_string());
    assert_eq!(decimal_i64(-42), "-42");
    assert_eq!(decimal_i64(i64::MIN), i64::MIN.to_string());
    for value in [0i64, 7, -7, 1_000_000, i64::MAX, i64::MIN] {
        assert_eq!(parse_i64(&decimal_i64(value)), Some(value));
    }
    assert_eq!(parse_i64("+15"), Some(15));
    assert_eq!(parse_i64("-0"), Some(0));
    assert_eq!(parse_i64(""), None);
    assert_eq!(parse_i64("-"), None);
    assert_eq!(parse_i64("12a"), None);
    assert_eq!(parse_i64("9223372036854775808"), None);
    assert_eq!(parse_i64("-9223372036854775808"), Some(i64::MIN));
}

#[test]
fn identifiers_are_checked_byte_by_byte() {
    assert!(is_git_sha("0123456789abcdef0123456789abcdef01234567"));
    assert!(!is_git_sha("0123456789abcdef0123456789abcdef0123456"));
    assert!(!is_git_sha("0123456789ABCDEF0123456789abcdef01234567"));
    assert!(validate_sha256(&format!("sha256:{}", "a".repeat(64))).is_ok());
    assert_eq!(validate_sha256("sha256:abc").unwrap_err().kind, ErrorKind::BadRequest);
    assert!(validate_sha256(&"a".repeat(64)).is_err());
    assert!(validate_kubernetes_resource_name("web-app-1").is_ok());
    assert!(validate_kubernetes_resource_name("-web").is_err());
    assert!(validate_kubernetes_resource_name("web-").is_err());
    assert!(validate_kubernetes_resource_name("Web").is_err());
    assert!(validate_kubernetes_resource_name(&"a".repeat(64)).is_err());
    assert!(validate_kubernetes_resource_name("").is_err());
}

#[test]
fn gitops_paths_stay_inside_the_repository() {
    assert!(safe_relative_gitops_path("apps/web/overlays/dev"));
    assert!(!safe_relative_gitops_path("/etc/passwd"));
    assert!(!safe_relative_gitops_path("apps/../secrets"));
    assert!(!safe_relative_gitops_path("apps//web"));
    assert!(!safe_relative_gitops_path("apps/./web"));
    assert!(!safe_relative_gitops_path(""));
    assert!(!safe_relative_gitops_path(&"a".repeat(513)));
    assert!(safe_relative_gitops_path("apps/..web"));
}

#[test]
fn operator_decisions_need_actor_and_reason() {
    assert!(validate_actor_reason("alice", "ship it").is_ok());
    assert!(validate_actor_reason("  ", "ship it").is_err());
    assert!(validate_actor_reason("alice", "").is_err());
    assert!(validate_actor_reason(&"a".repeat(201), "ship it").is_err());
    assert!(validate_actor_reason("alice", &"r".repeat(1001)).is_err());
    assert_eq!(validate_actor_reason("alice", " ").unwrap_err().kind, ErrorKind::BadRequest);
}

#[test]
fn optional_text_and_error_codes_are_normalized() {
    assert_eq!(clean_optional_text(Some("  value ".to_string())), Some("value".to_string()));
    assert_eq!(clean_optional_text(Some("   ".to_string())), None);
    assert_eq!(clean_optional_text(None), None);
    assert_eq!(normalized_executor_error_code(Some(" Sync-Timeout_1 ".to_string()), "fallback"), "Sync-Timeout_1");
    assert_eq!(normalized_executor_error_code(Some("bad code".to_string()), "fallback"), "fallback");
    assert_eq!(normalized_executor_error_code(Some("x".repeat(97)), "fallback"), "fallback");
    assert_eq!(normalized_executor_error_code(None, "fallback"), "fallback");
    assert!(is_snake_code(""));
    assert!(!is_bounded_code(""));
    assert!(is_bounded_code("github_timeout"));
    assert!(!is_bounded_code("GitHub"));
    assert!(!is_bounded_code(&"a".repeat(101)));
}

#[test]
fn approval_gate_kinds() {
    assert!(approval_gate_uses_dedicated_lifecycle_action("production_rollback"));
    assert!(!approval_gate_uses_dedicated_lifecycle_action("production_deployment"));
    let gate = JsonValue::Object(vec![("kind".to_string(), JsonValue::Str(" cluster_mutation ".to_string()))]);
    assert_eq!(approval_gate_kind(&gate), Some("cluster_mutation".to_string()));
    assert_eq!(approval_gate_kind(&JsonValue::Str("production_impact".to_string())), Some("production_impact".to_string()));
    assert_eq!(approval_gate_kind(&JsonValue::Str("   ".to_string())), None);
    assert_eq!(approval_gate_kind(&JsonValue::Null), None);
}

#[test]
fn argo_poll_interval_defaults_to_five_seconds() {
    let config = JsonValue::Object(vec![(
        "argo_executor".to_string(),
        JsonValue::Object(vec![("poll_seconds".to_string(), JsonValue::Number(JsonNumber::PosInt(12)))]),
    )]);
    assert_eq!(argo_executor_poll_seconds(&config), 12);
    let zero = JsonValue::Object(vec![(
        "argo_executor".to_string(),
        JsonValue::Object(vec![("poll_seconds".to_string(), JsonValue::Number(JsonNumber::PosInt(0)))]),
    )]);
    assert_eq!(argo_executor_poll_seconds(&zero), 5);
    assert_eq!(argo_executor_poll_seconds(&JsonValue::Null), 5);
    let check = execution_check("code", true, "summary".to_string());
    assert_eq!(check.code, "code");
    assert!(check.passed);
}

#[test]
fn set_member_assigns_or_creates_an_object() {
    let object = JsonValue::Object(vec![("a".to_string(), JsonValue::Bool(true))]);
    let updated = set_member(object, "b", JsonValue::Bool(false));
    let expected = JsonValue::Object(vec![
        ("a".to_string(), JsonValue::Bool(true)),
        ("b".to_string(), JsonValue::Bool(false)),
    ]);
    assert!(json_equal(&updated, &expected));
    let from_null = set_member(JsonValue::Null, "b", JsonValue::Bool(false));
    assert!(json_equal(&from_null, &JsonValue::Object(vec![("b".to_string(), JsonValue::Bool(false))])));
}

#[test]
fn clock_readings_are_saturated_timestamps() {
    assert_eq!(millis_timestamp(5), 5);
    assert_eq!(millis_timestamp(u128::MAX), i64::MAX);
    assert!(current_millis() > 1_600_000_000_000);
}
