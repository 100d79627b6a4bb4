use pharness_api::agents::AgentAuthenticationClass;
use pharness_api::host_capabilities::{validate_capabilities, HostHeartbeat, HostPoolPolicy};

fn pairs(entries: &[(&str, &str)]) -> Vec<(String, String)> {
    entries.iter().map(|(k, v)| (k.to_string(), v.to_string())).collect()
}

fn policies() -> Vec<HostPoolPolicy> {
    vec![
        HostPoolPolicy {
            host_pool: "linux-pool".to_string(),
            codex_version: "0.50.0".to_string(),
            runner_images: pairs(&[("rust", "registry/rust@sha256:1"), ("node", "registry/node@sha256:2")]),
            allowed_authentication: vec![AgentAuthenticationClass::ApiKey],
        },
        HostPoolPolicy {
            host_pool: "other-pool".to_string(),
            codex_version: "0.49.0".to_string(),
            runner_images: pairs(&[("python", "registry/python@sha256:3")]),
            allowed_authentication: vec![AgentAuthenticationClass::ChatgptSession],
        },
    ]
}

fn heartbeat() -> HostHeartbeat {
    HostHeartbeat {
        platform: "linux".to_string(),
        architecture: "x86_64".to_string(),
        codex_version: "0.50.0".to_string(),
        podman_version: Some("5.0".to_string()),
        execution_mode: "standalone".to_string(),
        authentication_class: "api_key".to_string(),
        authentication_ready: true,
        supported_profiles: vec!["rust".to_string(), "node".to_string()],
        runner_images: pairs(&[("node", "registry/node@sha256:2"), ("rust", "registry/rust@sha256:1")]),
        available_slots: 2,
    }
}

#[test]
fn matching_heartbeat_passes_without_blockers() {
    let (status, blockers) = validate_capabilities(true, "linux-pool", &policies(), &heartbeat());
    assert_eq!(status, "passed");
    assert!(blockers.is_empty());
}

#[test]
fn every_blocker_is_reported_in_order() {
    let mut request = heartbeat();
    request.platform = "darwin".to_string();
    request.execution_mode = "kubernetes".to_string();
    request.authentication_class = "chatgpt_session".to_string();
    request.authentication_ready = false;
    request.available_slots = 0;
    request.codex_version = "0.1.0".to_string();
    let (status, blockers) = validate_capabilities(false, "linux-pool", &policies(), &request);
    assert_eq!(status, "failed");
    assert_eq!(
        blockers,
        vec![
            "Codex agent backend is disabled",
            "host must report Linux AMD64",
            "Kubernetes hosts cannot use a ChatGPT session",
            "authentication is not ready",
            "host has no available execution slots",
            "Codex version does not match any host-pool policy",
            "authentication class is not allowed by host-pool policies",
        ]
    );
}

#[test]
fn profiles_are_checked_in_name_order() {
    let mut request = heartbeat();
    request.supported_profiles = vec!["zig".to_string(), "rust".to_string(), "go".to_string(), "rust".to_string()];
    request.runner_images = pairs(&[
        ("rust", "registry/rust@sha256:other"),
        ("zig", "registry/zig@sha256:4"),
        ("java", "registry/java@sha256:5"),
    ]);
    let (status, blockers) = validate_capabilities(true, "linux-pool", &policies(), &request);
    assert_eq!(status, "failed");
    assert_eq!(
        blockers,
        vec![
            "supported profile list contains duplicates",
            "profile go has no runner image",
            "profile rust runner image does not match the policy registry",
            "profile zig runner image does not match the policy registry",
            "runner image map contains an undeclared profile",
        ]
    );
}

#[test]
fn unknown_pool_mode_and_authentication_are_blockers() {
    let mut request = heartbeat();
    request.execution_mode = "vm".to_string();
    request.authentication_class = "password".to_string();
    request.podman_version = None;
    request.supported_profiles = vec![];
    request.runner_images = vec![];
    let (status, blockers) = validate_capabilities(true, "missing-pool", &policies(), &request);
    assert_eq!(status, "failed");
    assert_eq!(
        blockers,
        vec![
            "execution mode must be standalone or kubernetes",
            "authentication class is unsupported",
            "host pool has no configured policies",
            "Codex version does not match any host-pool policy",
        ]
    );
}

#[test]
fn standalone_hosts_need_podman() {
    let mut request = heartbeat();
    request.podman_version = None;
    let (status, blockers) = validate_capabilities(true, "linux-pool", &policies(), &request);
    assert_eq!(status, "failed");
    assert_eq!(blockers, vec!["standalone hosts must report rootless Podman"]);
}
