//! The hosted workflow controller: the operator's pause, resume and cancel
//! controls, the conditions it reports and the run a stage chain continues
//! from.
pub mod build_stage;
pub mod build_grant;
pub mod source_merge;
pub mod staging;
pub mod approval;

use vstd::prelude::*;
use crate::clock::{current_millis, millis_timestamp};
use crate::error::{ApiError, ErrorKind};
use crate::text::str_eq;

verus! {

/// A reported controller condition: its name and the reason for it.
pub type Condition = (String, String);

pub fn condition(name: &str, reason: String) -> (r: Condition)
    ensures
        r.0@ == name@,
        r.1@ == reason@,
{
    (name.to_owned(), reason)
}

/// The current time as a millisecond timestamp; it is never negative.
pub fn now() -> (r: i64)
    ensures
        r >= 0,
{
    millis_timestamp(current_millis())
}

/// How many runs of a WorkItem the controller reads at once; a full page
/// means the history exceeds what one reconciliation may look at.
pub const RUN_HISTORY_LIMIT: usize = 200;

/// What loading a controller snapshot found before it hashes the state.
pub struct SnapshotFacts {
    pub metadata_present: bool,
    pub workflow_policy_present: bool,
    /// Why the workflow policy is invalid, if it is.
    pub policy_error: Option<String>,
    /// How many runs were read, at most the page size.
    pub run_count: usize,
}

/// The refusal owed to a snapshot, in the order the facts are read.
pub open spec fn spec_snapshot_refusal(f: SnapshotFacts) -> Option<Seq<char>> {
    if !f.metadata_present {
        Some("hosted WorkItem metadata is unavailable"@)
    } else if !f.workflow_policy_present {
        Some("source-only work cannot enter the hosted controller"@)
    } else if f.policy_error is Some {
        Some(f.policy_error->0@)
    } else if f.run_count >= RUN_HISTORY_LIMIT {
        Some("hosted execution history exceeds its bounded reconciliation window"@)
    } else {
        None
    }
}

/// Admit a controller snapshot: hosted work with a valid workflow policy
/// whose run history fits within one page.
pub fn admit_snapshot(facts: &SnapshotFacts) -> (r: Result<(), ApiError>)
    ensures
        match r {
            Ok(()) => spec_snapshot_refusal(*facts) is None,
            Err(e) => e.kind == ErrorKind::Conflict && spec_snapshot_refusal(*facts) == Some(e.message@),
        },
{
    if !facts.metadata_present {
        return Err(ApiError::conflict("hosted WorkItem metadata is unavailable"));
    }
    if !facts.workflow_policy_present {
        return Err(ApiError::conflict("source-only work cannot enter the hosted controller"));
    }
    match &facts.policy_error {
        Some(m) => return Err(ApiError::with_message(ErrorKind::Conflict, m.clone())),
        None => {},
    }
    if facts.run_count >= RUN_HISTORY_LIMIT {
        return Err(ApiError::conflict("hosted execution history exceeds its bounded reconciliation window"));
    }
    Ok(())
}

/// A stage execution as the controller sees it.
pub struct StageRecord {
    pub id: String,
    pub stage_key: String,
    pub run_id: Option<String>,
}

/// A run as the controller sees it.
pub struct RunRecord {
    pub id: String,
    pub status: String,
}

pub open spec fn is_chain_stage(k: Seq<char>) -> bool {
    k == "plan"@ || k == "implement"@ || k == "test"@ || k == "verify"@
}

/// Index of the last stage of the coding chain, if any.
pub open spec fn last_chain_stage(stages: Seq<StageRecord>) -> Option<int>
    decreases stages.len(),
{
    if stages.len() == 0 {
        None
    } else if is_chain_stage(stages.last().stage_key@) {
        Some(stages.len() - 1)
    } else {
        last_chain_stage(stages.drop_last())
    }
}

/// Index of the first completed run with the given id.
pub open spec fn first_completed_run(runs: Seq<RunRecord>, id: Seq<char>) -> Option<int>
    decreases runs.len(),
{
    if runs.len() == 0 {
        None
    } else if runs[0].id@ == id && runs[0].status@ == "completed"@ {
        Some(0)
    } else {
        match first_completed_run(runs.drop_first(), id) {
            Some(i) => Some(i + 1),
            None => None,
        }
    }
}

/// The run a stage chain continues from: the completed run of the last
/// chain stage, unless that stage is still the plan.
pub open spec fn spec_continuation_candidate(stages: Seq<StageRecord>, runs: Seq<RunRecord>) -> Option<int> {
    match last_chain_stage(stages) {
        Some(i) => if stages[i].stage_key@ == "plan"@ {
            None
        } else {
            match stages[i].run_id {
                Some(id) => first_completed_run(runs, id@),
                None => None,
            }
        },
        None => None,
    }
}

proof fn lemma_first_completed_run_bounds(runs: Seq<RunRecord>, id: Seq<char>)
    ensures
        first_completed_run(runs, id) matches Some(i) ==> 0 <= i < runs.len(),
    decreases runs.len(),
{
    if runs.len() > 0 {
        lemma_first_completed_run_bounds(runs.drop_first(), id);
    }
}

proof fn lemma_last_chain_stage_bounds(stages: Seq<StageRecord>)
    ensures
        last_chain_stage(stages) matches Some(i) ==> 0 <= i < stages.len(),
    decreases stages.len(),
{
    if stages.len() > 0 {
        lemma_last_chain_stage_bounds(stages.drop_last());
    }
}

/// Index (into `runs`) of the run a stage chain continues from.
pub fn continuation_candidate(stages: &Vec<StageRecord>, runs: &Vec<RunRecord>) -> (r: Option<usize>)
    ensures
        match r {
            Some(i) => spec_continuation_candidate(stages@, runs@) == Some(i as int) && i < runs@.len(),
            None => spec_continuation_candidate(stages@, runs@) is None,
        },
{
    let mut i = stages.len();
    proof {
        assert(stages@.subrange(0, i as int) =~= stages@);
    }
    while i > 0
        invariant
            i <= stages@.len(),
            last_chain_stage(stages@) == last_chain_stage(stages@.subrange(0, i as int)),
        ensures
            i <= stages@.len(),
            last_chain_stage(stages@) == last_chain_stage(stages@.subrange(0, i as int)),
            i > 0 ==> is_chain_stage(stages@[i - 1].stage_key@),
        decreases i,
    {
        let ghost pre = stages@.subrange(0, i as int);
        proof {
            assert(pre.drop_last() =~= stages@.subrange(0, i - 1));
        }
        let k = stages[i - 1].stage_key.as_str();
        if str_eq(k, "plan") || str_eq(k, "implement") || str_eq(k, "test") || str_eq(k, "verify") {
            break;
        }
        i = i - 1;
    }
    if i == 0 {
        proof {
            assert(stages@.subrange(0, 0) =~= Seq::<StageRecord>::empty());
        }
        return None;
    }
    let stage = &stages[i - 1];
    proof {
        let pre = stages@.subrange(0, i as int);
        assert(pre.last() == stages@[i - 1]);
        assert(last_chain_stage(stages@) == Some(i - 1));
    }
    if str_eq(stage.stage_key.as_str(), "plan") {
        return None;
    }
    let run_id = match &stage.run_id {
        Some(id) => id,
        None => return None,
    };
    let mut j: usize = 0;
    proof {
        assert(runs@.subrange(0, runs@.len() as int) =~= runs@);
        assert(spec_continuation_candidate(stages@, runs@) == first_completed_run(runs@, run_id@));
    }
    while j < runs.len()
        invariant
            j <= runs@.len(),
            spec_continuation_candidate(stages@, runs@) == first_completed_run(runs@, run_id@),
            first_completed_run(runs@, run_id@) == match first_completed_run(runs@.subrange(j as int, runs@.len() as int), run_id@) {
                Some(t) => Some(t + j),
                None => None::<int>,
            },
        decreases runs@.len() - j,
    {
        let ghost rest = runs@.subrange(j as int, runs@.len() as int);
        proof {
            assert(rest[0] == runs@[j as int]);
            assert(rest.drop_first() =~= runs@.subrange(j + 1, runs@.len() as int));
        }
        if str_eq(runs[j].id.as_str(), run_id.as_str()) && str_eq(runs[j].status.as_str(), "completed") {
            return Some(j);
        }
        j = j + 1;
    }
    proof {
        assert(runs@.subrange(runs@.len() as int, runs@.len() as int) =~= Seq::<RunRecord>::empty());
    }
    None
}

/// A control action the operator may take on hosted work.
pub struct WorkflowControlAction {
    pub id: String,
    pub lifecycle_stage: String,
    pub resource: String,
    pub status: String,
    pub effect_class: String,
    pub approval_required: bool,
    pub external_effect_summary: String,
    pub state_hash: String,
}

proof fn lemma_control_literals()
    ensures
        "pause_workflow"@ != "resume_workflow"@,
        "pause_workflow"@ != "cancel_workflow"@,
        "resume_workflow"@ != "cancel_workflow"@,
        "cancelled"@ != "paused"@,
        "active"@ != "paused"@,
        "active"@ != "cancelled"@,
{
    reveal_strlit("pause_workflow");
    reveal_strlit("resume_workflow");
    reveal_strlit("cancel_workflow");
    reveal_strlit("cancelled");
    reveal_strlit("paused");
    reveal_strlit("active");
    assert("pause_workflow"@[0] != "cancel_workflow"@[0]);
    assert("resume_workflow"@[0] != "cancel_workflow"@[0]);
    assert("pause_workflow"@[1] != "resume_workflow"@[1]);
    assert("cancelled"@[0] != "paused"@[0]);
    assert("active"@[0] != "paused"@[0]);
    assert("active"@[0] != "cancelled"@[0]);
}

/// The control actions offered in a control state, by id: resume and cancel
/// while paused, pause and cancel otherwise, none once cancelled.
pub open spec fn spec_offered_controls(control: Seq<char>) -> Seq<Seq<char>> {
    if control == "cancelled"@ {
        Seq::empty()
    } else if control == "paused"@ {
        seq!["resume_workflow"@, "cancel_workflow"@]
    } else {
        seq!["pause_workflow"@, "cancel_workflow"@]
    }
}

pub open spec fn spec_control_summary(id: Seq<char>) -> Seq<char> {
    if id == "resume_workflow"@ {
        "Resume new development and promotion within the saved authorization."@
    } else if id == "pause_workflow"@ {
        "Pause new development and promotion. Work already dispatched may finish; observation and already-authorized release recovery continue."@
    } else {
        "Cancel future development and promotion. Existing evidence is retained; observation and already-authorized release recovery continue."@
    }
}

/// The action `id` on the work item, ready and approval-bound.
pub open spec fn control_action_is(a: WorkflowControlAction, id: Seq<char>, work_item_id: Seq<char>, state_hash: Seq<char>) -> bool {
    &&& a.id@ == id
    &&& a.lifecycle_stage@ == "workflow"@
    &&& a.resource@ == work_item_id
    &&& a.status@ == "ready"@
    &&& a.effect_class@ == "workflow_control"@
    &&& a.approval_required
    &&& a.external_effect_summary@ == spec_control_summary(id)
    &&& a.state_hash@ == state_hash
}

fn control_action(id: &str, summary: &str, work_item_id: &str, state_hash: &str) -> (r: WorkflowControlAction)
    requires
        summary@ == spec_control_summary(id@),
    ensures
        control_action_is(r, id@, work_item_id@, state_hash@),
{
    WorkflowControlAction {
        id: id.to_owned(),
        lifecycle_stage: String::from_str("workflow"),
        resource: work_item_id.to_owned(),
        status: String::from_str("ready"),
        effect_class: String::from_str("workflow_control"),
        approval_required: true,
        external_effect_summary: summary.to_owned(),
        state_hash: state_hash.to_owned(),
    }
}

/// The control actions offered on hosted work in control state `control`;
/// none for closed work.
pub fn control_actions(control: &str, closed: bool, work_item_id: &str, state_hash: &str) -> (r: Vec<WorkflowControlAction>)
    ensures
        closed ==> r@.len() == 0,
        !closed ==> r@.len() == spec_offered_controls(control@).len() && forall|i: int|
            0 <= i < r@.len() ==> control_action_is(#[trigger] r@[i], spec_offered_controls(control@)[i], work_item_id@, state_hash@),
{
    let mut actions: Vec<WorkflowControlAction> = Vec::new();
    proof {
        lemma_control_literals();
    }
    if closed || str_eq(control, "cancelled") {
        return actions;
    }
    let cancel = "Cancel future development and promotion. Existing evidence is retained; observation and already-authorized release recovery continue.";
    if str_eq(control, "paused") {
        actions.push(control_action("resume_workflow", "Resume new development and promotion within the saved authorization.", work_item_id, state_hash));
    } else {
        actions.push(control_action("pause_workflow", "Pause new development and promotion. Work already dispatched may finish; observation and already-authorized release recovery continue.", work_item_id, state_hash));
    }
    actions.push(control_action("cancel_workflow", cancel, work_item_id, state_hash));
    actions
}

/// The control state an action moves hosted work to.
pub open spec fn spec_control_target(action: Seq<char>) -> Option<Seq<char>> {
    if action == "pause_workflow"@ {
        Some("paused"@)
    } else if action == "resume_workflow"@ {
        Some("active"@)
    } else if action == "cancel_workflow"@ {
        Some("cancelled"@)
    } else {
        None
    }
}

/// An operator control applies when it names a control action, the state it
/// was decided on is still current and the action is offered there.
pub open spec fn spec_control_applies(action: Seq<char>, control: Seq<char>, current_hash: Seq<char>, expected_hash: Seq<char>) -> bool {
    &&& spec_control_target(action) is Some
    &&& current_hash == expected_hash
    &&& spec_offered_controls(control).contains(action)
}

/// Decide an operator control on hosted work whose control state is
/// `control` and whose control material currently hashes to `current_hash`;
/// the answer is the new control state.
pub fn decide_workflow_control(action: &str, control: &str, current_hash: &str, expected_hash: &str) -> (r: Result<&'static str, ApiError>)
    ensures
        r is Ok <==> spec_control_applies(action@, control@, current_hash@, expected_hash@),
        r matches Ok(c) ==> spec_control_target(action@) == Some(c@),
        r matches Err(e) ==> e.kind == ErrorKind::Conflict,
        spec_control_target(action@) is None ==> (r matches Err(e) && e.message@
            == "Hosted work advances through its controller. Use pause, resume or cancel to control progression; production approval is a separate decision."@),
        spec_control_target(action@) is Some && r is Err ==> (r matches Err(e) && e.message@
            == "workflow control changed; refresh before applying this decision"@),
{
    let target = if str_eq(action, "pause_workflow") {
        "paused"
    } else if str_eq(action, "resume_workflow") {
        "active"
    } else if str_eq(action, "cancel_workflow") {
        "cancelled"
    } else {
        return Err(ApiError::conflict("Hosted work advances through its controller. Use pause, resume or cancel to control progression; production approval is a separate decision."));
    };
    proof {
        lemma_control_literals();
    }
    let offered = if str_eq(control, "cancelled") {
        false
    } else if str_eq(control, "paused") {
        str_eq(action, "resume_workflow") || str_eq(action, "cancel_workflow")
    } else {
        str_eq(action, "pause_workflow") || str_eq(action, "cancel_workflow")
    };
    proof {
        let o = spec_offered_controls(control@);
        if control@ == "paused"@ {
            assert(o =~= seq!["resume_workflow"@, "cancel_workflow"@]);
            assert(o.contains(action@) <==> (action@ == o[0] || action@ == o[1]));
        } else if control@ != "cancelled"@ {
            assert(o =~= seq!["pause_workflow"@, "cancel_workflow"@]);
            assert(o.contains(action@) <==> (action@ == o[0] || action@ == o[1]));
        }
    }
    if !str_eq(current_hash, expected_hash) || !offered {
        return Err(ApiError::conflict("workflow control changed; refresh before applying this decision"));
    }
    Ok(target)
}

/// Cancellation is final: no control action is offered on cancelled work,
/// so every later control is refused.
pub proof fn lemma_cancelled_control_is_final(action: Seq<char>, current_hash: Seq<char>, expected_hash: Seq<char>)
    ensures
        !spec_control_applies(action, "cancelled"@, current_hash, expected_hash),
{
}

/// Every control that applies changes the control state.
pub proof fn lemma_applied_control_changes_state(action: Seq<char>, control: Seq<char>, current_hash: Seq<char>, expected_hash: Seq<char>)
    requires
        spec_control_applies(action, control, current_hash, expected_hash),
    ensures
        spec_control_target(action)->0 != control,
{
    lemma_control_literals();
    let o = spec_offered_controls(control);
    if control == "paused"@ {
        assert(o =~= seq!["resume_workflow"@, "cancel_workflow"@]);
        assert(action == o[0] || action == o[1]);
    } else {
        assert(o =~= seq!["pause_workflow"@, "cancel_workflow"@]);
        assert(action == o[0] || action == o[1]);
    }
}

/// Pausing active work and then resuming it makes it active again.
pub proof fn lemma_pause_then_resume_restores_active(h1: Seq<char>, h2: Seq<char>)
    ensures
        spec_control_applies("pause_workflow"@, "active"@, h1, h1),
        spec_control_target("pause_workflow"@) == Some("paused"@),
        spec_control_applies("resume_workflow"@, "paused"@, h2, h2),
        spec_control_target("resume_workflow"@) == Some("active"@),
{
    lemma_control_literals();
    assert(spec_offered_controls("active"@) =~= seq!["pause_workflow"@, "cancel_workflow"@]);
    assert(spec_offered_controls("active"@)[0] == "pause_workflow"@);
    assert(spec_offered_controls("paused"@) =~= seq!["resume_workflow"@, "cancel_workflow"@]);
    assert(spec_offered_controls("paused"@)[0] == "resume_workflow"@);
}

/// Whether the bounded wait is over: the check budget is spent and the
/// observed state has not changed since the last check.
pub open spec fn spec_wait_expired(unchanged_checks: i64, max_checks: u32, observed_hash: Option<Seq<char>>, snapshot_hash: Seq<char>) -> bool {
    unchanged_checks >= max_checks && observed_hash == Some(snapshot_hash)
}

pub fn wait_expired(unchanged_checks: i64, max_checks: u32, observed_hash: Option<&str>, snapshot_hash: &str) -> (r: bool)
    ensures
        r == spec_wait_expired(unchanged_checks, max_checks, match observed_hash {
            Some(h) => Some(h@),
            None => None,
        }, snapshot_hash@),
{
    unchanged_checks >= max_checks as i64 && match observed_hash {
        Some(h) => str_eq(h, snapshot_hash),
        None => false,
    }
}

/// The deadline of a waiting operation: its creation time plus the whole
/// wait budget, saturating.
pub open spec fn spec_deadline(created_at: i64, interval_ms: i64, max_checks: u32) -> int {
    let budget = if interval_ms * max_checks > i64::MAX {
        i64::MAX as int
    } else if interval_ms * max_checks < i64::MIN {
        i64::MIN as int
    } else {
        interval_ms * max_checks
    };
    if created_at + budget > i64::MAX {
        i64::MAX as int
    } else if created_at + budget < i64::MIN {
        i64::MIN as int
    } else {
        created_at + budget
    }
}

pub fn deadline(created_at: i64, interval_ms: i64, max_checks: u32) -> (r: i64)
    ensures
        r as int == spec_deadline(created_at, interval_ms, max_checks),
{
    assert(-9223372036854775808 * 4294967295 <= interval_ms * max_checks <= 9223372036854775807 * 4294967295)
        by (nonlinear_arith)
        requires
            -9223372036854775808 <= interval_ms <= 9223372036854775807,
            0 <= max_checks <= 4294967295,
    ;
    let product: i128 = interval_ms as i128 * max_checks as i128;
    let budget: i128 = if product > 9223372036854775807i128 {
        9223372036854775807i128
    } else if product < -9223372036854775808i128 {
        -9223372036854775808i128
    } else {
        product
    };
    let total: i128 = created_at as i128 + budget;
    if total > 9223372036854775807i128 {
        9223372036854775807i64
    } else if total < -9223372036854775808i128 {
        -9223372036854775808i64
    } else {
        total as i64
    }
}

} // verus!
