use pharness_api::delivery_segments::{
    delivery_resource, delivery_segment, is_blocked_delivery_status, is_complete_delivery_status,
    next_delivery_segment, sdlc_flow_delivery_segments, FlowRecord, FlowReference, SdlcFlow, Workspace,
};

fn record(id: &str, status: &str, reason: Option<&str>) -> FlowRecord {
    FlowRecord {
        id: id.to_string(),
        status: status.to_string(),
        status_reason: reason.map(str::to_string),
        summary: format!("{id} summary"),
    }
}

fn flow() -> SdlcFlow {
    SdlcFlow {
        work_plan: FlowReference { id: "wp-1".to_string(), text: "Add caching".to_string() },
        change_set: Some(record("cs-1", "merged", None)),
        source_pr_evidence: Some(FlowReference { id: "art-1".to_string(), text: "PR #4".to_string() }),
        pipeline_intent: Some(record("pi-1", "succeeded", None)),
        gitops_change_set: Some(record("gcs-1", "proposed", None)),
        deployment_intent: None,
        release: None,
        registry_evidence: None,
    }
}

fn workspace() -> Workspace {
    Workspace {
        id: "ws-1".to_string(),
        status: "captured".to_string(),
        source_repo: "example/app".to_string(),
        resolved_commit: None,
        source_ref: "main".to_string(),
    }
}

#[test]
fn statuses_are_classified() {
    for status in ["captured", "completed", "verified", "merged", "succeeded", "satisfied", "ready", "applied"] {
        assert!(is_complete_delivery_status(status));
        assert!(!is_blocked_delivery_status(status));
    }
    for status in ["blocked", "failed", "rejected", "stale"] {
        assert!(is_blocked_delivery_status(status));
        assert!(!is_complete_delivery_status(status));
    }
    assert!(!is_complete_delivery_status("proposed"));
    assert!(!is_blocked_delivery_status("proposed"));
}

#[test]
fn segments_follow_the_flow_in_order() {
    let ws = workspace();
    let segments = sdlc_flow_delivery_segments(&flow(), Some(&ws));
    let keys: Vec<&str> = segments.iter().map(|s| s.key.as_str()).collect();
    assert_eq!(keys, vec!["source", "build", "gitops", "deploy", "verify"]);
    let statuses: Vec<&str> = segments.iter().map(|s| s.status.as_str()).collect();
    assert_eq!(statuses, vec!["complete", "complete", "active", "unreached", "unreached"]);
    assert_eq!(segments[0].summary, "Immutable source change and workspace provenance are recorded.");
    assert!(segments[0].stopping_reason.is_none());
    let resource_kinds: Vec<&str> = segments[0].resources.iter().map(|r| r.kind.as_str()).collect();
    assert_eq!(resource_kinds, vec!["work_plan", "workspace", "change_set", "artifact"]);
    assert_eq!(segments[0].resources[1].summary.as_deref(), Some("example/app @ main"));
    assert_eq!(segments[2].summary, "gcs-1 summary");
    assert_eq!(segments[2].stopping_reason.as_deref(), Some("gcs-1 summary"));
    assert_eq!(segments[3].summary, "Awaiting GitOps merge provenance before deployment can start.");
    assert!(segments[3].resources.is_empty());
}

#[test]
fn a_blocked_source_stops_everything_after_it() {
    let mut blocked = flow();
    blocked.change_set = Some(record("cs-1", "rejected", Some("Needs a narrower change")));
    let ws = workspace();
    let segments = sdlc_flow_delivery_segments(&blocked, Some(&ws));
    assert_eq!(segments[0].status, "blocked");
    assert_eq!(segments[0].summary, "Needs a narrower change");
    assert_eq!(segments[1].status, "unreached");
    assert_eq!(segments[1].summary, "Awaiting immutable source delivery before build can start.");
    let no_workspace = sdlc_flow_delivery_segments(&flow(), None);
    assert_eq!(no_workspace[0].status, "active");
    assert_eq!(no_workspace[0].summary, "Awaiting a captured workspace and reviewed source ChangeSet.");
}

#[test]
fn a_reached_segment_without_its_record_is_active() {
    let segment = next_delivery_segment("build", "Build", true, None, None, None, ["wait previous", "wait record"]);
    assert_eq!(segment.status, "active");
    assert_eq!(segment.summary, "wait record");
    assert_eq!(segment.stopping_reason.as_deref(), Some("wait record"));
    let segment = next_delivery_segment("build", "Build", false, Some("succeeded"), None, None, ["wait previous", "wait record"]);
    assert_eq!(segment.status, "unreached");
    assert_eq!(segment.summary, "wait previous");
    let segment = next_delivery_segment(
        "build",
        "Build",
        true,
        Some("succeeded"),
        None,
        Some(vec![delivery_resource("pipeline_intent", "pi-1", "PipelineIntent", None)]),
        ["wait previous", "wait record"],
    );
    assert_eq!(segment.status, "complete");
    assert_eq!(segment.summary, "Controller state recorded.");
    assert!(segment.stopping_reason.is_none());
    assert_eq!(segment.resources.len(), 1);
    let failed = delivery_segment("deploy", "Deploy", "blocked", "sync failed", vec![]);
    assert_eq!(failed.stopping_reason.as_deref(), Some("sync failed"));
}
