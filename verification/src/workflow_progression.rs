//! One step of the hosted controller: inspect a recorded operation first,
//! stop for closed, paused or expired work, and otherwise start the first
//! automatic action the saved workflow authorizes.
use vstd::prelude::*;
use crate::error::{ApiError, ErrorKind};
use crate::hosted_controller::{condition, Condition};
use crate::text::{str_eq, strip_all_prefixes, trim_start_matches};
use crate::workflow_operations::{ContinuationMaterial, OfferedAction};

verus! {

broadcast use vstd::std_specs::vec::group_vec_axioms;

/// The automatic actions a saved workflow may authorize.
#[derive(Clone, Copy, Debug, PartialEq, Eq, Structural)]
pub enum AutomaticAction {
    Plan,
    Implement,
    Test,
    Verify,
    SourceDelivery,
}

/// The actions the controller takes on its own.
pub open spec fn is_automatic_action(id: Seq<char>) -> bool {
    ||| id == "start_planner"@
    ||| id == "approve_work_plan"@
    ||| id == "authorize_stage_chain"@
    ||| id == "approve_change_set"@
    ||| id == "authorize_source_delivery"@
}

/// The authority an automatic action needs.
pub open spec fn spec_permission(id: Seq<char>) -> AutomaticAction {
    if id == "start_planner"@ || id == "approve_work_plan"@ {
        AutomaticAction::Plan
    } else if id == "authorize_stage_chain"@ {
        AutomaticAction::Implement
    } else if id == "authorize_source_delivery"@ {
        AutomaticAction::SourceDelivery
    } else {
        AutomaticAction::Verify
    }
}

pub open spec fn is_candidate(a: OfferedAction) -> bool {
    a.status@ == "ready"@ && is_automatic_action(a.id@)
}

/// Index of the first ready automatic action.
pub open spec fn first_candidate(actions: Seq<OfferedAction>) -> Option<int>
    decreases actions.len(),
{
    if actions.len() == 0 {
        None
    } else if is_candidate(actions[0]) {
        Some(0)
    } else {
        match first_candidate(actions.drop_first()) {
            Some(i) => Some(i + 1),
            None => None,
        }
    }
}

/// What one controller pass does.
pub enum AdvanceStep {
    /// Reconcile the operation already recorded for the work item.
    ReconcileOperation,
    /// Report a condition and start nothing.
    Report(Condition),
    /// Start an operation for `action` on `resource`.
    Start { action: String, input_hash: String, resource: String },
}

pub open spec fn stopped_message() -> Seq<char> {
    "New development and promotion are stopped. Observation and authorized recovery continue."@
}

pub open spec fn idle_message(actions: Seq<OfferedAction>) -> Seq<char> {
    if actions.len() > 0 {
        actions[0].external_effect_summary@
    } else {
        "Waiting for stage evidence; no eligible automatic action is available."@
    }
}

/// The outcome owed for one controller pass, as a tag and its texts:
/// `Ok(Err(()))` to reconcile the recorded operation, `Ok(Ok((false, a, b, _)))`
/// to report condition `a` with reason `b`, `Ok(Ok((true, action, hash,
/// resource)))` to start an operation, and `Err(())` when the saved workflow
/// does not authorize the action.
pub open spec fn spec_advance(
    has_operation: bool,
    closed: bool,
    control: Seq<char>,
    expired: bool,
    actions: Seq<OfferedAction>,
    continuation: Option<ContinuationMaterial>,
    authorized: Seq<AutomaticAction>,
) -> Result<Result<(bool, Seq<char>, Seq<char>, Seq<char>), ()>, ()> {
    if has_operation {
        Ok(Err(()))
    } else if closed {
        Ok(Ok((false, "closed"@, "The WorkItem is closed; retained evidence is unchanged."@, Seq::empty())))
    } else if control != "active"@ {
        Ok(Ok((false, control, stopped_message(), Seq::empty())))
    } else if expired {
        Ok(Ok((false, "wait_expired"@, "The existing bounded wait expired without new evidence. No additional work or budget was created."@, Seq::empty())))
    } else {
        match first_candidate(actions) {
            Some(i) => if authorized.contains(spec_permission(actions[i].id@)) {
                Ok(Ok((true, actions[i].id@, actions[i].state_hash@, actions[i].resource@)))
            } else {
                Err(())
            },
            None => match continuation {
                Some(c) => if authorized.contains(AutomaticAction::Test) && authorized.contains(AutomaticAction::Verify)
                    && authorized.contains(AutomaticAction::Implement) {
                    Ok(Ok((true, "continue_stage"@, c.material_hash@, c.run_id@)))
                } else {
                    Err(())
                },
                None => Ok(Ok((false, "waiting"@, idle_message(actions), Seq::empty()))),
            },
        }
    }
}

fn authorizes(authorized: &Vec<AutomaticAction>, action: AutomaticAction) -> (r: bool)
    ensures
        r == authorized@.contains(action),
{
    let mut i: usize = 0;
    while i < authorized.len()
        invariant
            i <= authorized@.len(),
            forall|k: int| 0 <= k < i ==> authorized@[k] != action,
        decreases authorized@.len() - i,
    {
        if authorized[i] == action {
            proof {
                assert(authorized@[i as int] == action);
            }
            return true;
        }
        i = i + 1;
    }
    false
}

fn require_authority(authorized: &Vec<AutomaticAction>, action: AutomaticAction) -> (r: Result<(), ApiError>)
    ensures
        r is Ok <==> authorized@.contains(action),
        r matches Err(e) ==> e.kind == ErrorKind::Conflict
            && e.message@ == "the saved workflow does not authorize this automatic action"@,
{
    if authorizes(authorized, action) {
        Ok(())
    } else {
        Err(ApiError::conflict("the saved workflow does not authorize this automatic action"))
    }
}

fn permission_of(id: &str) -> (r: AutomaticAction)
    ensures
        r == spec_permission(id@),
{
    if str_eq(id, "start_planner") || str_eq(id, "approve_work_plan") {
        AutomaticAction::Plan
    } else if str_eq(id, "authorize_stage_chain") {
        AutomaticAction::Implement
    } else if str_eq(id, "authorize_source_delivery") {
        AutomaticAction::SourceDelivery
    } else {
        AutomaticAction::Verify
    }
}

fn is_automatic(id: &str) -> (r: bool)
    ensures
        r == is_automatic_action(id@),
{
    str_eq(id, "start_planner") || str_eq(id, "approve_work_plan") || str_eq(id, "authorize_stage_chain")
        || str_eq(id, "approve_change_set") || str_eq(id, "authorize_source_delivery")
}

fn first_candidate_exec(actions: &Vec<OfferedAction>) -> (r: Option<usize>)
    ensures
        match r {
            Some(i) => first_candidate(actions@) == Some(i as int) && i < actions@.len(),
            None => first_candidate(actions@) is None,
        },
{
    let n = actions.len();
    let mut i: usize = 0;
    proof {
        assert(actions@.subrange(0, n as int) =~= actions@);
    }
    while i < n
        invariant
            n == actions@.len(),
            i <= n,
            first_candidate(actions@) == match first_candidate(actions@.subrange(i as int, n as int)) {
                Some(t) => Some(t + i),
                None => None::<int>,
            },
        decreases n - i,
    {
        let ghost rest = actions@.subrange(i as int, n as int);
        proof {
            assert(rest[0] == actions@[i as int]);
            assert(rest.drop_first() =~= actions@.subrange(i + 1, n as int));
        }
        if str_eq(actions[i].status.as_str(), "ready") && is_automatic(actions[i].id.as_str()) {
            return Some(i);
        }
        i = i + 1;
    }
    proof {
        assert(actions@.subrange(n as int, n as int) =~= Seq::<OfferedAction>::empty());
    }
    None
}

/// One controller pass over a hosted work item.
pub fn advance_step(
    has_operation: bool,
    closed: bool,
    control: &str,
    expired: bool,
    actions: &Vec<OfferedAction>,
    continuation: Option<&ContinuationMaterial>,
    authorized: &Vec<AutomaticAction>,
) -> (r: Result<AdvanceStep, ApiError>)
    ensures
        ({
            let owed = spec_advance(has_operation, closed, control@, expired, actions@, match continuation {
                Some(c) => Some(*c),
                None => None,
            }, authorized@);
            match r {
                Ok(AdvanceStep::ReconcileOperation) => owed == Ok::<Result<(bool, Seq<char>, Seq<char>, Seq<char>), ()>, ()>(Err(())),
                Ok(AdvanceStep::Report(c)) => owed == Ok::<Result<(bool, Seq<char>, Seq<char>, Seq<char>), ()>, ()>(Ok((false, c.0@, c.1@, Seq::empty()))),
                Ok(AdvanceStep::Start { action, input_hash, resource }) => owed == Ok::<Result<(bool, Seq<char>, Seq<char>, Seq<char>), ()>, ()>(Ok((true, action@, input_hash@, resource@))),
                Err(e) => owed == Err::<Result<(bool, Seq<char>, Seq<char>, Seq<char>), ()>, ()>(()) && e.kind == ErrorKind::Conflict
                    && e.message@ == "the saved workflow does not authorize this automatic action"@,
            }
        }),
{
    if has_operation {
        return Ok(AdvanceStep::ReconcileOperation);
    }
    if closed {
        return Ok(AdvanceStep::Report(condition("closed", String::from_str("The WorkItem is closed; retained evidence is unchanged."))));
    }
    if !str_eq(control, "active") {
        return Ok(AdvanceStep::Report(condition(control, String::from_str("New development and promotion are stopped. Observation and authorized recovery continue."))));
    }
    if expired {
        return Ok(AdvanceStep::Report(condition("wait_expired", String::from_str("The existing bounded wait expired without new evidence. No additional work or budget was created."))));
    }
    match first_candidate_exec(actions) {
        Some(i) => {
            let a = &actions[i];
            match require_authority(authorized, permission_of(a.id.as_str())) {
                Ok(()) => {},
                Err(e) => return Err(e),
            }
            Ok(AdvanceStep::Start { action: a.id.clone(), input_hash: a.state_hash.clone(), resource: a.resource.clone() })
        },
        None => match continuation {
            Some(c) => {
                match require_authority(authorized, AutomaticAction::Test) {
                    Ok(()) => {},
                    Err(e) => return Err(e),
                }
                match require_authority(authorized, AutomaticAction::Verify) {
                    Ok(()) => {},
                    Err(e) => return Err(e),
                }
                match require_authority(authorized, AutomaticAction::Implement) {
                    Ok(()) => {},
                    Err(e) => return Err(e),
                }
                Ok(AdvanceStep::Start {
                    action: String::from_str("continue_stage"),
                    input_hash: c.material_hash.clone(),
                    resource: c.run_id.clone(),
                })
            },
            None => {
                let reason = if actions.len() > 0 {
                    actions[0].external_effect_summary.clone()
                } else {
                    String::from_str("Waiting for stage evidence; no eligible automatic action is available.")
                };
                Ok(AdvanceStep::Report(condition("waiting", reason)))
            },
        },
    }
}

/// The resources an operation locks: worker-running actions hold the coding
/// slot and the repository, source delivery holds the repository, approvals
/// hold nothing.
pub open spec fn spec_resource_keys(action: Seq<char>, repository_id: Seq<char>) -> Seq<Seq<char>> {
    let repo_lock = "repository:"@ + repository_id;
    if action == "start_planner"@ || action == "authorize_stage_chain"@ || action == "continue_stage"@ {
        seq!["coding"@, repo_lock]
    } else if action == "authorize_source_delivery"@ {
        seq![repo_lock]
    } else {
        Seq::empty()
    }
}

pub fn operation_resource_keys(action: &str, repository_id: &str) -> (r: Vec<String>)
    ensures
        crate::text::texts_view(r@) == spec_resource_keys(action@, repository_id@),
{
    let repo_lock = String::from_str("repository:").concat(repository_id);
    let mut keys: Vec<String> = Vec::new();
    if str_eq(action, "start_planner") || str_eq(action, "authorize_stage_chain") || str_eq(action, "continue_stage") {
        keys.push(String::from_str("coding"));
        keys.push(repo_lock);
    } else if str_eq(action, "authorize_source_delivery") {
        keys.push(repo_lock);
    }
    proof {
        assert(crate::text::texts_view(keys@) =~= spec_resource_keys(action@, repository_id@));
    }
    keys
}

/// The identifier of the operation whose identity hashes to `identity`.
pub fn operation_id(identity: &str) -> (r: String)
    ensures
        r@ == "workflowop_"@ + strip_all_prefixes(identity@, "sha256:"@),
{
    String::from_str("workflowop_").concat(trim_start_matches(identity, "sha256:"))
}

/// A recorded operation is always inspected first, whatever the control
/// state, closure or wait.
pub proof fn lemma_recorded_operation_inspected_first(
    closed: bool,
    control: Seq<char>,
    expired: bool,
    actions: Seq<OfferedAction>,
    continuation: Option<ContinuationMaterial>,
    authorized: Seq<AutomaticAction>,
)
    ensures
        spec_advance(true, closed, control, expired, actions, continuation, authorized) == Ok::<Result<(bool, Seq<char>, Seq<char>, Seq<char>), ()>, ()>(Err(())),
{
}

/// Work that is closed, not active or whose wait expired starts no new
/// operation.
pub proof fn lemma_stopped_work_starts_nothing(
    closed: bool,
    control: Seq<char>,
    expired: bool,
    actions: Seq<OfferedAction>,
    continuation: Option<ContinuationMaterial>,
    authorized: Seq<AutomaticAction>,
)
    requires
        closed || control != "active"@ || expired,
    ensures
        spec_advance(false, closed, control, expired, actions, continuation, authorized) matches Ok(Ok((started, _, _, _))) && !started,
{
}

/// An operation is started only for an action the saved workflow
/// authorizes: its own permission, or for a continuation the test, verify
/// and implement permissions.
pub proof fn lemma_started_operations_are_authorized(
    has_operation: bool,
    closed: bool,
    control: Seq<char>,
    expired: bool,
    actions: Seq<OfferedAction>,
    continuation: Option<ContinuationMaterial>,
    authorized: Seq<AutomaticAction>,
)
    requires
        spec_advance(has_operation, closed, control, expired, actions, continuation, authorized) matches Ok(Ok((started, _, _, _))) && started,
    ensures
        control == "active"@ && !closed && !expired && !has_operation,
        match first_candidate(actions) {
            Some(i) => authorized.contains(spec_permission(actions[i].id@)),
            None => authorized.contains(AutomaticAction::Test) && authorized.contains(AutomaticAction::Verify)
                && authorized.contains(AutomaticAction::Implement),
        },
{
}

} // verus!
