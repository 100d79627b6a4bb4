use pharness_api::error::ErrorKind;
use pharness_api::host_control::{
    check_capability_snapshot, check_lease_host, decide_host_action, host_actions, latest_planned_selection,
    sticky_host, HostAction, HostActionPlan, HostLifecycle, LeaseSummary, SelectionSummary,
};

fn lease(id: &str, state: &str) -> LeaseSummary {
    LeaseSummary { id: id.to_string(), state: state.to_string() }
}

fn summary(actions: &[HostAction]) -> Vec<(String, bool, String)> {
    actions.iter().map(|a| (a.id.clone(), a.eligible, a.effect_class.clone())).collect()
}

#[test]
fn ready_host_offers_draining() {
    let actions = host_actions(true, "ready", &vec![lease("l1", "running")]);
    assert_eq!(
        summary(&actions),
        vec![
            ("verify_capabilities".to_string(), true, "read_only_verification".to_string()),
            ("enter_draining".to_string(), true, "control_plane_mutation".to_string()),
        ]
    );
    assert_eq!(actions[0].title, "Verify capabilities");
    assert_eq!(actions[1].title, "Enter draining");
}

#[test]
fn draining_host_with_paused_lease_offers_abandonment_not_retirement() {
    let leases = vec![lease("l1", "completed"), lease("l2", "paused")];
    let actions = host_actions(false, "draining", &leases);
    assert_eq!(
        summary(&actions),
        vec![
            ("verify_capabilities".to_string(), false, "read_only_verification".to_string()),
            ("leave_draining".to_string(), true, "control_plane_mutation".to_string()),
            ("retire".to_string(), false, "control_plane_mutation".to_string()),
            ("abandon_lease_l2".to_string(), true, "workspace_abandonment".to_string()),
        ]
    );
    assert_eq!(actions[3].title, "Abandon permanently lost workspace");
    assert_eq!(
        actions[3].external_effect_summary.as_deref(),
        Some("Abandon lease l2 and require a new correction or replan workspace")
    );
}

#[test]
fn unavailable_idle_host_may_retire() {
    let actions = host_actions(true, "unavailable", &vec![lease("l1", "completed")]);
    assert_eq!(
        summary(&actions),
        vec![
            ("verify_capabilities".to_string(), true, "read_only_verification".to_string()),
            ("retire".to_string(), true, "control_plane_mutation".to_string()),
        ]
    );
    assert_eq!(host_actions(true, "retired", &vec![]).len(), 1);
}

#[test]
fn host_actions_follow_lifecycle() {
    assert!(matches!(
        decide_host_action("op", "why", "h", "h", "enter_draining", "ready"),
        Ok(HostActionPlan::SetLifecycle(HostLifecycle::Draining))
    ));
    assert!(matches!(
        decide_host_action("op", "why", "h", "h", "leave_draining", "draining"),
        Ok(HostActionPlan::SetLifecycle(HostLifecycle::Ready))
    ));
    assert!(matches!(
        decide_host_action("op", "why", "h", "h", "retire", "unavailable"),
        Ok(HostActionPlan::SetLifecycle(HostLifecycle::Retired))
    ));
    assert!(matches!(
        decide_host_action("op", "why", "h", "h", "verify_capabilities", "retired"),
        Ok(HostActionPlan::VerifyCapabilities)
    ));
    match decide_host_action("op", "why", "h", "h", "abandon_lease_abandon_lease_l9", "ready") {
        Ok(HostActionPlan::AbandonLease(id)) => assert_eq!(id, "l9"),
        _ => panic!("abandonment expected"),
    }

    let e = decide_host_action("op", "why", "h", "h", "enter_draining", "draining").err().unwrap();
    assert_eq!(e.kind, ErrorKind::Conflict);
    assert_eq!(e.message, "agent-host action is not currently eligible");
    let e = decide_host_action("op", "why", "old", "h", "retire", "draining").err().unwrap();
    assert_eq!(e.message, "agent host changed; refresh and review the current action");
    let e = decide_host_action(" ", "why", "h", "h", "retire", "draining").err().unwrap();
    assert_eq!(e.kind, ErrorKind::BadRequest);
    assert_eq!(e.message, "actor and reason are required");
}

#[test]
fn capability_verification_needs_a_fresh_pass() {
    assert!(check_capability_snapshot(Some(("passed", "2000")), 1_999).is_ok());
    let e = check_capability_snapshot(Some(("passed", "2000")), 2_000).err().unwrap();
    assert_eq!(e.message, "host must report a fresh passing capability snapshot");
    assert!(check_capability_snapshot(Some(("failed", "9999")), 1).is_err());
    assert!(check_capability_snapshot(Some(("passed", "soon")), 0).is_err());
    let e = check_capability_snapshot(None, 0).err().unwrap();
    assert_eq!(e.message, "host has not reported capabilities");
}

#[test]
fn lease_ownership_and_sticky_hosts() {
    assert!(check_lease_host(Some("host_1"), "host_1").is_ok());
    let e = check_lease_host(Some("host_2"), "host_1").err().unwrap();
    assert_eq!(e.message, "lease does not belong to this host");
    assert!(check_lease_host(None, "host_1").is_err());

    assert_eq!(sticky_host(Some("a".to_string()), Some("b".to_string())), Some("a".to_string()));
    assert_eq!(sticky_host(None, Some("b".to_string())), Some("b".to_string()));
    assert_eq!(sticky_host(None, None), None);
}

#[test]
fn latest_planned_selection_skips_bound_ones() {
    let selections = vec![
        SelectionSummary { stage_key: "plan".to_string(), stage_execution_id: None, run_id: None },
        SelectionSummary { stage_key: "implement".to_string(), stage_execution_id: None, run_id: None },
        SelectionSummary { stage_key: "plan".to_string(), stage_execution_id: None, run_id: None },
        SelectionSummary { stage_key: "plan".to_string(), stage_execution_id: Some("se".to_string()), run_id: None },
    ];
    assert_eq!(latest_planned_selection(&selections, "plan"), Some(2));
    assert_eq!(latest_planned_selection(&selections, "implement"), Some(1));
    assert_eq!(latest_planned_selection(&selections, "verify"), None);
}
