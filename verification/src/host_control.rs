//! Operator control of agent hosts: the actions a host offers in its
//! lifecycle state, which of them an operator's request may carry out, and
//! which runner placements a workspace keeps.
use vstd::prelude::*;
use crate::error::{ApiError, ErrorKind};
use vstd::utf8::encode_utf8;
use crate::text::{
    occurs_at, is_blank, parse_unsigned, spec_is_blank, spec_parse_unsigned, starts_with_str, str_eq, strip_all_prefixes,
    trim_start_matches,
};

verus! {

/// A lease of a host, as its actions depend on it.
pub struct LeaseSummary {
    pub id: String,
    pub state: String,
}

/// An action offered on a host.
pub struct HostAction {
    pub id: String,
    pub title: String,
    pub eligible: bool,
    pub effect_class: String,
    pub external_effect_summary: Option<String>,
}

pub open spec fn opt_view(o: Option<String>) -> Option<Seq<char>> {
    match o {
        Some(s) => Some(s@),
        None => None,
    }
}

/// An action by its texts: id, title, eligibility, effect class and the
/// summary of its outside effect.
pub open spec fn action_view(a: HostAction) -> (Seq<char>, Seq<char>, bool, Seq<char>, Option<Seq<char>>) {
    (a.id@, a.title@, a.eligible, a.effect_class@, opt_view(a.external_effect_summary))
}

pub open spec fn actions_view(actions: Seq<HostAction>) -> Seq<(Seq<char>, Seq<char>, bool, Seq<char>, Option<Seq<char>>)> {
    actions.map_values(|a: HostAction| action_view(a))
}

/// A lease still occupies its host while it is claimed, running or paused.
pub open spec fn spec_lease_occupies(state: Seq<char>) -> bool {
    state == "claimed"@ || state == "running"@ || state == "paused"@
}

/// A host may be retired only when none of its leases occupies it.
pub open spec fn spec_retire_eligible(leases: Seq<LeaseSummary>) -> bool {
    forall|i: int| 0 <= i < leases.len() ==> !spec_lease_occupies(#[trigger] leases[i].state@)
}

pub open spec fn mutation(id: Seq<char>, title: Seq<char>, eligible: bool) -> (Seq<char>, Seq<char>, bool, Seq<char>, Option<Seq<char>>) {
    (id, title, eligible, "control_plane_mutation"@, None)
}

/// The lifecycle actions of a host in `lifecycle` state.
pub open spec fn spec_lifecycle_actions(lifecycle: Seq<char>, leases: Seq<LeaseSummary>) -> Seq<(Seq<char>, Seq<char>, bool, Seq<char>, Option<Seq<char>>)> {
    if lifecycle == "ready"@ {
        seq![mutation("enter_draining"@, "Enter draining"@, true)]
    } else if lifecycle == "draining"@ {
        seq![
            mutation("leave_draining"@, "Leave draining"@, true),
            mutation("retire"@, "Retire host"@, spec_retire_eligible(leases)),
        ]
    } else if lifecycle == "unavailable"@ {
        seq![mutation("retire"@, "Retire host"@, spec_retire_eligible(leases))]
    } else {
        Seq::empty()
    }
}

pub open spec fn abandon_action(lease_id: Seq<char>) -> (Seq<char>, Seq<char>, bool, Seq<char>, Option<Seq<char>>) {
    (
        "abandon_lease_"@ + lease_id,
        "Abandon permanently lost workspace"@,
        true,
        "workspace_abandonment"@,
        Some("Abandon lease "@ + lease_id + " and require a new correction or replan workspace"@),
    )
}

/// One abandonment action for each paused lease, in lease order.
pub open spec fn spec_abandon_actions(leases: Seq<LeaseSummary>) -> Seq<(Seq<char>, Seq<char>, bool, Seq<char>, Option<Seq<char>>)>
    decreases leases.len(),
{
    if leases.len() == 0 {
        Seq::empty()
    } else {
        spec_abandon_actions(leases.drop_last()) + if leases.last().state@ == "paused"@ {
            seq![abandon_action(leases.last().id@)]
        } else {
            Seq::empty()
        }
    }
}

/// Every action offered on a host: capability verification (eligible once
/// the host reported capabilities), its lifecycle actions, and abandonment
/// of each paused lease's workspace.
pub open spec fn spec_host_actions(capability_reported: bool, lifecycle: Seq<char>, leases: Seq<LeaseSummary>) -> Seq<(Seq<char>, Seq<char>, bool, Seq<char>, Option<Seq<char>>)> {
    seq![("verify_capabilities"@, "Verify capabilities"@, capability_reported, "read_only_verification"@, None)]
        + spec_lifecycle_actions(lifecycle, leases) + spec_abandon_actions(leases)
}

fn lease_occupies(state: &str) -> (r: bool)
    ensures
        r == spec_lease_occupies(state@),
{
    str_eq(state, "claimed") || str_eq(state, "running") || str_eq(state, "paused")
}

fn retire_eligible(leases: &Vec<LeaseSummary>) -> (r: bool)
    ensures
        r == spec_retire_eligible(leases@),
{
    let mut i: usize = 0;
    while i < leases.len()
        invariant
            i <= leases@.len(),
            forall|k: int| 0 <= k < i ==> !spec_lease_occupies(#[trigger] leases@[k].state@),
        decreases leases@.len() - i,
    {
        if lease_occupies(leases[i].state.as_str()) {
            return false;
        }
        i = i + 1;
    }
    true
}

fn push_action(actions: &mut Vec<HostAction>, id: &str, title: &str, eligible: bool, effect_class: &str, summary: Option<String>)
    ensures
        actions_view(final(actions)@) == actions_view(old(actions)@).push((id@, title@, eligible, effect_class@, opt_view(summary))),
{
    let ghost before = actions@;
    actions.push(HostAction {
        id: String::from_str(id),
        title: String::from_str(title),
        eligible,
        effect_class: String::from_str(effect_class),
        external_effect_summary: summary,
    });
    proof {
        assert(actions_view(actions@) =~= actions_view(before).push((id@, title@, eligible, effect_class@, opt_view(summary))));
    }
}

/// The actions an operator is offered on a host.
pub fn host_actions(capability_reported: bool, lifecycle: &str, leases: &Vec<LeaseSummary>) -> (r: Vec<HostAction>)
    ensures
        actions_view(r@) == spec_host_actions(capability_reported, lifecycle@, leases@),
        (exists|k: int| 0 <= k < leases@.len() && (#[trigger] leases@[k].state@ == "claimed"@ || leases@[k].state@ == "running"@
            || leases@[k].state@ == "paused"@)) ==> forall|j: int| 0 <= j < r@.len() && #[trigger] r@[j].id@ == "retire"@
            ==> !r@[j].eligible,
{
    let mut actions: Vec<HostAction> = Vec::new();
    push_action(&mut actions, "verify_capabilities", "Verify capabilities", capability_reported, "read_only_verification", None);
    let ghost first = actions_view(actions@);
    if str_eq(lifecycle, "ready") {
        push_action(&mut actions, "enter_draining", "Enter draining", true, "control_plane_mutation", None);
    } else if str_eq(lifecycle, "draining") {
        push_action(&mut actions, "leave_draining", "Leave draining", true, "control_plane_mutation", None);
        let eligible = retire_eligible(leases);
        push_action(&mut actions, "retire", "Retire host", eligible, "control_plane_mutation", None);
    } else if str_eq(lifecycle, "unavailable") {
        let eligible = retire_eligible(leases);
        push_action(&mut actions, "retire", "Retire host", eligible, "control_plane_mutation", None);
    }
    proof {
        assert(actions_view(actions@) =~= first + spec_lifecycle_actions(lifecycle@, leases@));
    }
    let ghost head = actions_view(actions@);
    let mut i: usize = 0;
    while i < leases.len()
        invariant
            i <= leases@.len(),
            actions_view(actions@) == head + spec_abandon_actions(leases@.subrange(0, i as int)),
        decreases leases@.len() - i,
    {
        let ghost pre = leases@.subrange(0, i + 1);
        proof {
            assert(pre.drop_last() =~= leases@.subrange(0, i as int));
        }
        if str_eq(leases[i].state.as_str(), "paused") {
            let lease_id = leases[i].id.as_str();
            let id = String::from_str("abandon_lease_").concat(lease_id);
            let summary = String::from_str("Abandon lease ").concat(lease_id).concat(
                " and require a new correction or replan workspace",
            );
            push_action(&mut actions, id.as_str(), "Abandon permanently lost workspace", true, "workspace_abandonment", Some(summary));
            proof {
                assert(actions_view(actions@) =~= head + spec_abandon_actions(pre));
            }
        } else {
            proof {
                assert(actions_view(actions@) =~= head + spec_abandon_actions(pre));
            }
        }
        i = i + 1;
    }
    proof {
        assert(leases@.subrange(0, leases@.len() as int) =~= leases@);
        assert(actions_view(actions@) =~= spec_host_actions(capability_reported, lifecycle@, leases@));
        if exists|k: int| 0 <= k < leases@.len() && (#[trigger] leases@[k].state@ == "claimed"@ || leases@[k].state@
            == "running"@ || leases@[k].state@ == "paused"@) {
            let k = choose|k: int| 0 <= k < leases@.len() && (#[trigger] leases@[k].state@ == "claimed"@ || leases@[k].state@
                == "running"@ || leases@[k].state@ == "paused"@);
            lemma_occupied_host_cannot_retire(capability_reported, lifecycle@, leases@, k);
            let all = spec_host_actions(capability_reported, lifecycle@, leases@);
            assert forall|j: int| 0 <= j < actions@.len() && #[trigger] actions@[j].id@ == "retire"@ implies !actions@[j].eligible by {
                assert(actions_view(actions@)[j] == action_view(actions@[j]));
                assert(all[j] == actions_view(actions@)[j]);
            }
        }
    }
    actions
}

/// The lifecycle states an operator may move a host to.
#[derive(Clone, Copy, Debug, PartialEq, Eq, Structural)]
pub enum HostLifecycle {
    Ready,
    Draining,
    Retired,
}

/// What an accepted host action does.
pub enum HostActionPlan {
    SetLifecycle(HostLifecycle),
    VerifyCapabilities,
    AbandonLease(String),
}

pub open spec fn spec_host_action_plan(action_id: Seq<char>, lifecycle: Seq<char>) -> Option<(Option<HostLifecycle>, Option<Seq<char>>)> {
    if action_id == "enter_draining"@ && lifecycle == "ready"@ {
        Some((Some(HostLifecycle::Draining), None))
    } else if action_id == "leave_draining"@ && lifecycle == "draining"@ {
        Some((Some(HostLifecycle::Ready), None))
    } else if action_id == "retire"@ && (lifecycle == "draining"@ || lifecycle == "unavailable"@) {
        Some((Some(HostLifecycle::Retired), None))
    } else if action_id == "verify_capabilities"@ {
        Some((None, None))
    } else if occurs_at(encode_utf8(action_id), encode_utf8("abandon_lease_"@), 0) {
        Some((None, Some(strip_all_prefixes(action_id, "abandon_lease_"@))))
    } else {
        None
    }
}

/// The refusal of a host action request, if any: an actor and a reason are
/// required, the reviewed host state must be current, and the action must be
/// one the host's lifecycle state allows.
pub open spec fn spec_host_action_refusal(actor: Seq<char>, reason: Seq<char>, request_hash: Seq<char>, current_hash: Seq<char>, action_id: Seq<char>, lifecycle: Seq<char>) -> Option<(ErrorKind, Seq<char>)> {
    if spec_is_blank(actor) || spec_is_blank(reason) {
        Some((ErrorKind::BadRequest, "actor and reason are required"@))
    } else if request_hash != current_hash {
        Some((ErrorKind::Conflict, "agent host changed; refresh and review the current action"@))
    } else if spec_host_action_plan(action_id, lifecycle) is None {
        Some((ErrorKind::Conflict, "agent-host action is not currently eligible"@))
    } else {
        None
    }
}

pub open spec fn plan_view(p: HostActionPlan) -> (Option<HostLifecycle>, Option<Seq<char>>) {
    match p {
        HostActionPlan::SetLifecycle(l) => (Some(l), None),
        HostActionPlan::VerifyCapabilities => (None, None),
        HostActionPlan::AbandonLease(id) => (None, Some(id@)),
    }
}

/// Decide an operator's action on a host in `lifecycle` state whose state
/// hash is now `current_hash`.
pub fn decide_host_action(actor: &str, reason: &str, request_hash: &str, current_hash: &str, action_id: &str, lifecycle: &str) -> (r: Result<HostActionPlan, ApiError>)
    ensures
        match r {
            Ok(p) => spec_host_action_refusal(actor@, reason@, request_hash@, current_hash@, action_id@, lifecycle@) is None
                && spec_host_action_plan(action_id@, lifecycle@) == Some(plan_view(p)),
            Err(e) => spec_host_action_refusal(actor@, reason@, request_hash@, current_hash@, action_id@, lifecycle@)
                == Some((e.kind, e.message@)),
        },
{
    if is_blank(actor) || is_blank(reason) {
        return Err(ApiError::bad_request("actor and reason are required"));
    }
    if !str_eq(request_hash, current_hash) {
        return Err(ApiError::conflict("agent host changed; refresh and review the current action"));
    }
    if str_eq(action_id, "enter_draining") && str_eq(lifecycle, "ready") {
        Ok(HostActionPlan::SetLifecycle(HostLifecycle::Draining))
    } else if str_eq(action_id, "leave_draining") && str_eq(lifecycle, "draining") {
        Ok(HostActionPlan::SetLifecycle(HostLifecycle::Ready))
    } else if str_eq(action_id, "retire") && (str_eq(lifecycle, "draining") || str_eq(lifecycle, "unavailable")) {
        Ok(HostActionPlan::SetLifecycle(HostLifecycle::Retired))
    } else if str_eq(action_id, "verify_capabilities") {
        Ok(HostActionPlan::VerifyCapabilities)
    } else if starts_with_str(action_id, "abandon_lease_") {
        Ok(HostActionPlan::AbandonLease(String::from_str(trim_start_matches(action_id, "abandon_lease_"))))
    } else {
        Err(ApiError::conflict("agent-host action is not currently eligible"))
    }
}

/// A capability snapshot supports verification while it passed and its
/// expiry (read as zero when unreadable) is still ahead.
pub open spec fn spec_capability_fresh(status: Seq<char>, expires_at: Seq<char>, now: int) -> bool {
    let expires = match spec_parse_unsigned(expires_at, u128::MAX as int) {
        Some(e) => e,
        None => 0,
    };
    status == "passed"@ && expires > now
}

/// Check the capability snapshot a verification action relies on.
pub fn check_capability_snapshot(snapshot: Option<(&str, &str)>, now: u128) -> (r: Result<(), ApiError>)
    ensures
        match snapshot {
            None => r matches Err(e) && e.kind == ErrorKind::Conflict && e.message@ == "host has not reported capabilities"@,
            Some((status, expires_at)) => if spec_capability_fresh(status@, expires_at@, now as int) {
                r is Ok
            } else {
                r matches Err(e) && e.kind == ErrorKind::Conflict && e.message@
                    == "host must report a fresh passing capability snapshot"@
            },
        },
{
    match snapshot {
        None => Err(ApiError::conflict("host has not reported capabilities")),
        Some((status, expires_at)) => {
            let expires = match parse_unsigned(expires_at, u128::MAX) {
                Some(e) => e,
                None => 0,
            };
            if !str_eq(status, "passed") || expires <= now {
                Err(ApiError::conflict("host must report a fresh passing capability snapshot"))
            } else {
                Ok(())
            }
        },
    }
}

/// A lease may be abandoned through a host only when it is that host's.
pub fn check_lease_host(lease_host: Option<&str>, host_id: &str) -> (r: Result<(), ApiError>)
    ensures
        r is Ok <==> (match lease_host {
            Some(h) => h@ == host_id@,
            None => false,
        }),
        r matches Err(e) ==> e.kind == ErrorKind::Conflict && e.message@ == "lease does not belong to this host"@,
{
    let same = match lease_host {
        Some(h) => str_eq(h, host_id),
        None => false,
    };
    if !same {
        return Err(ApiError::conflict("lease does not belong to this host"));
    }
    Ok(())
}

/// The host a workspace sticks to: the one its latest lease ran on, else the
/// one that lease was pinned to.
pub fn sticky_host(lease_host: Option<String>, pinned_host: Option<String>) -> (r: Option<String>)
    ensures
        opt_view(r) == match lease_host {
            Some(h) => Some(h@),
            None => opt_view(pinned_host),
        },
{
    match lease_host {
        Some(h) => Some(h),
        None => pinned_host,
    }
}

/// A recorded selection of an execution policy for a stage.
pub struct SelectionSummary {
    pub stage_key: String,
    pub stage_execution_id: Option<String>,
    pub run_id: Option<String>,
}

/// A planned selection is one not yet bound to a stage execution or run.
pub open spec fn spec_planned_for(s: SelectionSummary, stage_key: Seq<char>) -> bool {
    s.stage_key@ == stage_key && s.stage_execution_id is None && s.run_id is None
}

/// The latest planned selection for `stage_key` among selections in the
/// order they were recorded.
pub fn latest_planned_selection(selections: &Vec<SelectionSummary>, stage_key: &str) -> (r: Option<usize>)
    ensures
        match r {
            Some(i) => i < selections@.len() && spec_planned_for(selections@[i as int], stage_key@) && forall|k: int|
                i < k < selections@.len() ==> !spec_planned_for(#[trigger] selections@[k], stage_key@),
            None => forall|k: int| 0 <= k < selections@.len() ==> !spec_planned_for(#[trigger] selections@[k], stage_key@),
        },
{
    let mut i: usize = selections.len();
    while i > 0
        invariant
            i <= selections@.len(),
            forall|k: int| i <= k < selections@.len() ==> !spec_planned_for(#[trigger] selections@[k], stage_key@),
        decreases i,
    {
        let s = &selections[i - 1];
        if str_eq(s.stage_key.as_str(), stage_key) && s.stage_execution_id.is_none() && s.run_id.is_none() {
            return Some(i - 1);
        }
        i = i - 1;
    }
    None
}

proof fn lemma_abandon_offered(leases: Seq<LeaseSummary>, k: int)
    requires
        0 <= k < leases.len(),
        leases[k].state@ == "paused"@,
    ensures
        spec_abandon_actions(leases).contains(abandon_action(leases[k].id@)),
    decreases leases.len(),
{
    let a = spec_abandon_actions(leases);
    let x = abandon_action(leases[k].id@);
    if k == leases.len() - 1 {
        assert(a[a.len() - 1] == x);
    } else {
        let shorter = leases.drop_last();
        assert(shorter[k] == leases[k]);
        lemma_abandon_offered(shorter, k);
        let sub = spec_abandon_actions(shorter);
        let j = choose|j: int| 0 <= j < sub.len() && sub[j] == x;
        assert(a[j] == x);
    }
}

/// A host with a paused lease offers that lease's workspace for abandonment
/// and does not offer retirement as eligible.
pub proof fn lemma_paused_lease_offers(capability_reported: bool, lifecycle: Seq<char>, leases: Seq<LeaseSummary>, k: int)
    requires
        0 <= k < leases.len(),
        leases[k].state@ == "paused"@,
    ensures
        spec_host_actions(capability_reported, lifecycle, leases).contains(abandon_action(leases[k].id@)),
        !spec_retire_eligible(leases),
{
    assert(spec_lease_occupies(leases[k].state@));
    lemma_abandon_offered(leases, k);
    let x = abandon_action(leases[k].id@);
    let ab = spec_abandon_actions(leases);
    let j = choose|j: int| 0 <= j < ab.len() && ab[j] == x;
    let head = seq![("verify_capabilities"@, "Verify capabilities"@, capability_reported, "read_only_verification"@, None)]
        + spec_lifecycle_actions(lifecycle, leases);
    let all = spec_host_actions(capability_reported, lifecycle, leases);
    assert(all == head + ab);
    assert(all[head.len() + j] == x);
}

/// Every abandonment action's id begins with `abandon_lease_`.
proof fn lemma_abandon_ids(leases: Seq<LeaseSummary>)
    ensures
        forall|j: int| 0 <= j < spec_abandon_actions(leases).len() ==> exists|lid: Seq<char>|
            #[trigger] spec_abandon_actions(leases)[j].0 == "abandon_lease_"@ + lid,
    decreases leases.len(),
{
    if leases.len() > 0 {
        let shorter = leases.drop_last();
        lemma_abandon_ids(shorter);
        let a = spec_abandon_actions(leases);
        let sub = spec_abandon_actions(shorter);
        assert forall|j: int| 0 <= j < a.len() implies exists|lid: Seq<char>| #[trigger] a[j].0 == "abandon_lease_"@ + lid by {
            if j < sub.len() {
                assert(a[j] == sub[j]);
                let lid = choose|lid: Seq<char>| #[trigger] sub[j].0 == "abandon_lease_"@ + lid;
                assert(a[j].0 == "abandon_lease_"@ + lid);
            } else {
                assert(a[j] == abandon_action(leases.last().id@));
                assert(a[j].0 == "abandon_lease_"@ + leases.last().id@);
            }
        }
    }
}

/// A host is never offered an eligible retirement while any of its leases
/// is claimed, running or paused: every `retire` action it is offered, in
/// any lifecycle state, is ineligible.
pub proof fn lemma_occupied_host_cannot_retire(
    capability_reported: bool,
    lifecycle: Seq<char>,
    leases: Seq<LeaseSummary>,
    k: int,
)
    requires
        0 <= k < leases.len(),
        leases[k].state@ == "claimed"@ || leases[k].state@ == "running"@ || leases[k].state@ == "paused"@,
    ensures
        forall|j: int| 0 <= j < spec_host_actions(capability_reported, lifecycle, leases).len()
            && (#[trigger] spec_host_actions(capability_reported, lifecycle, leases)[j]).0 == "retire"@
            ==> !spec_host_actions(capability_reported, lifecycle, leases)[j].2,
{
    reveal_strlit("retire");
    reveal_strlit("verify_capabilities");
    reveal_strlit("enter_draining");
    reveal_strlit("leave_draining");
    reveal_strlit("abandon_lease_");
    assert(!spec_retire_eligible(leases));
    lemma_abandon_ids(leases);
    let head = seq![("verify_capabilities"@, "Verify capabilities"@, capability_reported, "read_only_verification"@, None)];
    let life = spec_lifecycle_actions(lifecycle, leases);
    let ab = spec_abandon_actions(leases);
    let all = spec_host_actions(capability_reported, lifecycle, leases);
    assert(all == head + life + ab);
    assert forall|j: int| 0 <= j < all.len() && (#[trigger] all[j]).0 == "retire"@ implies !all[j].2 by {
        if j < 1 {
            assert(all[j] == head[0]);
            assert("verify_capabilities"@.len() != "retire"@.len());
        } else if j < 1 + life.len() {
            assert(all[j] == life[j - 1]);
            if lifecycle == "ready"@ {
                assert(life[0].0 == "enter_draining"@);
                assert("enter_draining"@.len() != "retire"@.len());
            } else if lifecycle == "draining"@ {
                assert("leave_draining"@.len() != "retire"@.len());
                assert(life[1] == mutation("retire"@, "Retire host"@, spec_retire_eligible(leases)));
            } else if lifecycle == "unavailable"@ {
                assert(life[0] == mutation("retire"@, "Retire host"@, spec_retire_eligible(leases)));
            }
        } else {
            assert(all[j] == ab[j - 1 - life.len()]);
            let lid = choose|lid: Seq<char>| #[trigger] ab[j - 1 - life.len()].0 == "abandon_lease_"@ + lid;
            assert(all[j].0.len() >= 14);
        }
    }
}

} // verus!
