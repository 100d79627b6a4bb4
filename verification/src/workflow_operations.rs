//! Recovery of the hosted controller's recorded workflow operations: a
//! pending operation is resumed only while its action is still eligible,
//! and a dispatched one is followed through the single run it started.
use vstd::prelude::*;
use crate::error::{ApiError, ErrorKind};
use crate::hosted_controller::{condition, Condition};
use crate::json::{
    entries_view, get_str, items_view, json_str, lemma_array_view, lemma_object_view, obj_insert,
    set_member, spec_set_member, str_member, Json, JsonValue,
};
use crate::text::str_eq;

verus! {

broadcast use vstd::std_specs::vec::group_vec_axioms;

/// An action the controller currently offers.
pub struct OfferedAction {
    pub id: String,
    pub status: String,
    pub state_hash: String,
    pub resource: String,
    pub external_effect_summary: String,
}

/// A recorded workflow operation.
pub struct WorkflowOperation {
    pub id: String,
    pub action: String,
    pub status: String,
    pub input_hash: String,
}

/// The continuation a stage chain could resume from: its run and the hash
/// of that run's recorded result.
pub struct ContinuationMaterial {
    pub run_id: String,
    pub material_hash: String,
}

/// What to do with a pending operation.
pub enum PendingStep {
    /// Release its locks and report the control state.
    Release(Condition),
    /// Dispatch it again against the resource it was recorded for.
    Resume { resource: String },
}

pub open spec fn is_eligible(a: OfferedAction, op: WorkflowOperation) -> bool {
    a.id@ == op.action@ && a.state_hash@ == op.input_hash@ && a.status@ == "ready"@
}

/// Index of the first offered action the operation was recorded for.
pub open spec fn first_eligible(actions: Seq<OfferedAction>, op: WorkflowOperation) -> Option<int>
    decreases actions.len(),
{
    if actions.len() == 0 {
        None
    } else if is_eligible(actions[0], op) {
        Some(0)
    } else {
        match first_eligible(actions.drop_first(), op) {
            Some(i) => Some(i + 1),
            None => None,
        }
    }
}

pub open spec fn pending_message() -> Seq<char> {
    "The recorded operation has not been dispatched."@
}

/// The decision on a pending operation: released when the work is not
/// active or the wait expired; otherwise resumed against the eligible action
/// (or the unchanged continuation), and refused as stale when neither holds.
pub open spec fn spec_pending_step(
    control: Seq<char>,
    expired: bool,
    op: WorkflowOperation,
    actions: Seq<OfferedAction>,
    continuation: Option<ContinuationMaterial>,
) -> Result<Result<(Seq<char>, Seq<char>), Seq<char>>, Seq<char>> {
    if control != "active"@ || expired {
        Ok(Ok((control, pending_message())))
    } else {
        match first_eligible(actions, op) {
            Some(i) => Ok(Err(actions[i].resource@)),
            None => if op.action@ == "continue_stage"@ {
                match continuation {
                    Some(c) => if c.material_hash@ == op.input_hash@ {
                        Ok(Err(c.run_id@))
                    } else {
                        Err("the pending continuation is stale"@)
                    },
                    None => Err("the pending continuation is stale"@),
                }
            } else {
                Err("the pending action is stale"@)
            },
        }
    }
}

/// Decide what to do with a pending operation.
pub fn pending_operation_step(
    control: &str,
    expired: bool,
    operation: &WorkflowOperation,
    actions: &Vec<OfferedAction>,
    continuation: Option<&ContinuationMaterial>,
) -> (r: Result<PendingStep, ApiError>)
    ensures
        match r {
            Ok(PendingStep::Release(c)) => spec_pending_step(control@, expired, *operation, actions@, match continuation {
                Some(c) => Some(*c),
                None => None,
            }) == Ok::<Result<(Seq<char>, Seq<char>), Seq<char>>, Seq<char>>(Ok((c.0@, c.1@))),
            Ok(PendingStep::Resume { resource }) => spec_pending_step(control@, expired, *operation, actions@, match continuation {
                Some(c) => Some(*c),
                None => None,
            }) == Ok::<Result<(Seq<char>, Seq<char>), Seq<char>>, Seq<char>>(Err(resource@)),
            Err(e) => e.kind == ErrorKind::Conflict && spec_pending_step(control@, expired, *operation, actions@, match continuation {
                Some(c) => Some(*c),
                None => None,
            }) == Err::<Result<(Seq<char>, Seq<char>), Seq<char>>, Seq<char>>(e.message@),
        },
{
    if !str_eq(control, "active") || expired {
        let reason = String::from_str("The recorded operation has not been dispatched.");
        return Ok(PendingStep::Release(condition(control, reason)));
    }
    let n = actions.len();
    let mut i: usize = 0;
    proof {
        assert(actions@.subrange(0, n as int) =~= actions@);
    }
    while i < n
        invariant
            n == actions@.len(),
            i <= n,
            control@ == "active"@ && !expired,
            first_eligible(actions@, *operation) == match first_eligible(actions@.subrange(i as int, n as int), *operation) {
                Some(t) => Some(t + i),
                None => None::<int>,
            },
        decreases n - i,
    {
        let ghost rest = actions@.subrange(i as int, n as int);
        proof {
            assert(rest[0] == actions@[i as int]);
            assert(rest.drop_first() =~= actions@.subrange(i + 1, n as int));
        }
        let a = &actions[i];
        if str_eq(a.id.as_str(), operation.action.as_str()) && str_eq(a.state_hash.as_str(), operation.input_hash.as_str())
            && str_eq(a.status.as_str(), "ready") {
            return Ok(PendingStep::Resume { resource: a.resource.clone() });
        }
        i = i + 1;
    }
    proof {
        assert(actions@.subrange(n as int, n as int) =~= Seq::<OfferedAction>::empty());
    }
    if str_eq(operation.action.as_str(), "continue_stage") {
        match continuation {
            Some(c) => if str_eq(c.material_hash.as_str(), operation.input_hash.as_str()) {
                Ok(PendingStep::Resume { resource: c.run_id.clone() })
            } else {
                Err(ApiError::conflict("the pending continuation is stale"))
            },
            None => Err(ApiError::conflict("the pending continuation is stale")),
        }
    } else {
        Err(ApiError::conflict("the pending action is stale"))
    }
}

/// The resources a resumed operation records before dispatch: the resource
/// it acts on and the runs that existed before it.
pub open spec fn spec_pending_refs(resource: Seq<char>, run_ids: Seq<Seq<char>>) -> Json {
    Json::Object(
        seq![
            ("action_resource"@, Json::Str(resource)),
            ("before_run_ids"@, Json::Array(run_ids.map_values(|id: Seq<char>| Json::Str(id)))),
        ],
    )
}

pub open spec fn run_ids_of(runs: Seq<ObservedRun>) -> Seq<Seq<char>> {
    runs.map_values(|r: ObservedRun| r.id@)
}

pub fn pending_refs(resource: &str, runs: &Vec<ObservedRun>) -> (r: JsonValue)
    ensures
        r@ == spec_pending_refs(resource@, run_ids_of(runs@)),
{
    let mut ids: Vec<JsonValue> = Vec::new();
    let mut i: usize = 0;
    while i < runs.len()
        invariant
            i <= runs@.len(),
            ids@.len() == i,
            forall|k: int| 0 <= k < i ==> #[trigger] ids@[k]@ == Json::Str(runs@[k].id@),
        decreases runs@.len() - i,
    {
        ids.push(json_str(runs[i].id.as_str()));
        i = i + 1;
    }
    proof {
        lemma_array_view(ids);
        assert(items_view(ids@) =~= run_ids_of(runs@).map_values(|id: Seq<char>| Json::Str(id)));
    }
    let mut e: Vec<(String, JsonValue)> = Vec::new();
    obj_insert(&mut e, "action_resource", json_str(resource));
    obj_insert(&mut e, "before_run_ids", JsonValue::Array(ids));
    proof {
        lemma_object_view(e);
        assert(entries_view(e@) =~= spec_pending_refs(resource@, run_ids_of(runs@))->Object_0);
    }
    JsonValue::Object(e)
}

/// The condition an approval operation settles on: the saved authorization
/// was applied when the approval it records exists, otherwise the operation
/// is blocked without applying a second decision.
pub fn approval_operation_condition(approved: bool) -> (r: Condition)
    ensures
        approved ==> r.0@ == "progressing"@ && r.1@ == "The saved authorization was applied to the recorded evidence."@,
        !approved ==> r.0@ == "blocked"@ && r.1@
            == "The approval operation has incomplete state; no duplicate decision was applied."@,
{
    if approved {
        condition("progressing", String::from_str("The saved authorization was applied to the recorded evidence."))
    } else {
        condition("blocked", String::from_str("The approval operation has incomplete state; no duplicate decision was applied."))
    }
}

/// A run as a dispatched operation observes it.
pub struct ObservedRun {
    pub id: String,
    pub status: String,
    pub turns_used: u64,
    pub tokens_used: u64,
    pub execution_target: JsonValue,
}

/// A stage execution as a dispatched operation observes it.
pub struct ObservedStage {
    pub id: String,
    pub run_id: Option<String>,
    pub context_pack_id: Option<String>,
}

/// Whether a run belongs to the operation: the run it recorded, or, before
/// one is recorded, a run that did not exist when it was dispatched.
pub open spec fn spec_operation_run(refs: Json, run: ObservedRun) -> bool {
    match refs.get("run_id"@) {
        Some(id) => id == Json::Str(run.id@),
        None => match refs.get("before_run_ids"@) {
            Some(Json::Array(ids)) => !ids.contains(Json::Str(run.id@)),
            _ => false,
        },
    }
}

pub open spec fn operation_run_count(refs: Json, runs: Seq<ObservedRun>) -> nat
    decreases runs.len(),
{
    if runs.len() == 0 {
        0
    } else {
        operation_run_count(refs, runs.drop_last()) + if spec_operation_run(refs, runs.last()) {
            1nat
        } else {
            0nat
        }
    }
}

/// Index of the first stage execution of the given run.
pub open spec fn first_stage_of(stages: Seq<ObservedStage>, run_id: Seq<char>) -> Option<int>
    decreases stages.len(),
{
    if stages.len() == 0 {
        None
    } else if stages[0].run_id matches Some(r) && r@ == run_id {
        Some(0)
    } else {
        match first_stage_of(stages.drop_first(), run_id) {
            Some(i) => Some(i + 1),
            None => None,
        }
    }
}

/// The run was started under the saved workflow policy.
pub open spec fn spec_policy_bound(target: Json, policy_hash: Option<Seq<char>>) -> bool {
    match policy_hash {
        Some(h) => target.get("hosted_workflow_policy_hash"@) == Some(Json::Str(h)),
        None => target.get("hosted_workflow_policy_hash"@) is None || target.get("hosted_workflow_policy_hash"@)
            == Some(Json::Null),
    }
}

fn is_operation_run(refs: &JsonValue, run: &ObservedRun) -> (r: bool)
    ensures
        r == spec_operation_run(refs@, *run),
{
    match refs.get("run_id") {
        Some(id) => match id.as_str() {
            Some(s) => str_eq(s, run.id.as_str()),
            None => false,
        },
        None => match refs.get("before_run_ids") {
            Some(JsonValue::Array(ids)) => {
                proof {
                    lemma_array_view(*ids);
                }
                let ghost v = items_view(ids@);
                let mut k: usize = 0;
                while k < ids.len()
                    invariant
                        v == items_view(ids@),
                        refs@.get("run_id"@) is None,
                        refs@.get("before_run_ids"@) == Some(Json::Array(v)),
                        k <= ids@.len(),
                        forall|m: int| 0 <= m < k ==> v[m] != Json::Str(run.id@),
                    decreases ids@.len() - k,
                {
                    proof {
                        assert(v[k as int] == ids@[k as int]@);
                    }
                    match ids[k].as_str() {
                        Some(s) => if str_eq(s, run.id.as_str()) {
                            proof {
                                assert(v.contains(Json::Str(run.id@)));
                            }
                            return false;
                        },
                        None => {},
                    }
                    k = k + 1;
                }
                proof {
                    if v.contains(Json::Str(run.id@)) {
                        let m = choose|m: int| 0 <= m < v.len() && v[m] == Json::Str(run.id@);
                        assert(v[m] != Json::Str(run.id@));
                    }
                }
                true
            },
            _ => false,
        },
    }
}

/// The unique run of the operation, if exactly one run belongs to it.
fn unique_operation_run(refs: &JsonValue, runs: &Vec<ObservedRun>) -> (r: Option<usize>)
    ensures
        match r {
            Some(i) => i < runs@.len() && operation_run_count(refs@, runs@) == 1 && spec_operation_run(refs@, runs@[i as int]),
            None => operation_run_count(refs@, runs@) != 1,
        },
{
    let mut found: Option<usize> = None;
    let mut count: usize = 0;
    let mut i: usize = 0;
    while i < runs.len()
        invariant
            i <= runs@.len(),
            count == operation_run_count(refs@, runs@.subrange(0, i as int)),
            count <= i,
            count > 0 ==> (found matches Some(f) && f < i && spec_operation_run(refs@, runs@[f as int])),
        decreases runs@.len() - i,
    {
        let ghost pre = runs@.subrange(0, i + 1);
        proof {
            assert(pre.drop_last() =~= runs@.subrange(0, i as int));
            assert(pre.last() == runs@[i as int]);
        }
        if is_operation_run(refs, &runs[i]) {
            if count == 0 {
                found = Some(i);
            }
            count = count + 1;
        }
        i = i + 1;
    }
    proof {
        assert(runs@.subrange(0, runs@.len() as int) =~= runs@);
    }
    if count == 1 {
        found
    } else {
        None
    }
}

proof fn lemma_non_object_refs_claim_no_run(refs: Json, runs: Seq<ObservedRun>)
    requires
        !(refs is Object),
    ensures
        operation_run_count(refs, runs) == 0,
    decreases runs.len(),
{
    if runs.len() > 0 {
        lemma_non_object_refs_claim_no_run(refs, runs.drop_last());
    }
}

proof fn lemma_one_run_counted(refs: Json, runs: Seq<ObservedRun>, i: int)
    requires
        0 <= i < runs.len(),
        spec_operation_run(refs, runs[i]),
    ensures
        operation_run_count(refs, runs) >= 1,
    decreases runs.len(),
{
    if i < runs.len() - 1 {
        assert(runs.drop_last()[i] == runs[i]);
        lemma_one_run_counted(refs, runs.drop_last(), i);
    }
}

proof fn lemma_two_runs_counted(refs: Json, runs: Seq<ObservedRun>, i: int, j: int)
    requires
        0 <= i < j < runs.len(),
        spec_operation_run(refs, runs[i]),
        spec_operation_run(refs, runs[j]),
    ensures
        operation_run_count(refs, runs) >= 2,
    decreases runs.len(),
{
    assert(runs.drop_last()[i] == runs[i]);
    if j == runs.len() - 1 {
        lemma_one_run_counted(refs, runs.drop_last(), i);
    } else {
        assert(runs.drop_last()[j] == runs[j]);
        lemma_two_runs_counted(refs, runs.drop_last(), i, j);
    }
}

/// When exactly one run belongs to the operation, it is the only one.
proof fn lemma_unique_run(refs: Json, runs: Seq<ObservedRun>, i: int)
    requires
        0 <= i < runs.len(),
        operation_run_count(refs, runs) == 1,
        spec_operation_run(refs, runs[i]),
    ensures
        forall|j: int| 0 <= j < runs.len() && #[trigger] spec_operation_run(refs, runs[j]) ==> j == i,
{
    assert forall|j: int| 0 <= j < runs.len() && #[trigger] spec_operation_run(refs, runs[j]) implies j == i by {
        if j < i {
            lemma_two_runs_counted(refs, runs, j, i);
        } else if i < j {
            lemma_two_runs_counted(refs, runs, i, j);
        }
    }
}

pub open spec fn is_terminal_run(status: Seq<char>) -> bool {
    status == "completed"@ || status == "failed"@ || status == "cancelled"@
}

/// The run's stage execution exists, has its context pack and the run was
/// started under the saved policy.
pub open spec fn spec_startup_complete(stages: Seq<ObservedStage>, run: ObservedRun, policy_hash: Option<Seq<char>>) -> bool {
    &&& first_stage_of(stages, run.id@) matches Some(k) && stages[k].context_pack_id is Some
    &&& spec_policy_bound(run.execution_target@, policy_hash)
}

/// The resources a dispatched operation records once its run is known.
pub open spec fn spec_observed_refs(refs: Json, run: ObservedRun, stage: ObservedStage) -> Json {
    spec_set_member(spec_set_member(refs, "run_id"@, Json::Str(run.id@)), "stage_execution_id"@, Json::Str(stage.id@))
}

/// What to do with a dispatched operation.
pub enum DispatchedStep {
    /// No unique run belongs to it; its locks stay held.
    Blocked(Condition),
    /// Its run finished: reconcile the termination and record success.
    Terminal { run: usize, refs: JsonValue, condition: Condition },
    /// Its run is still preparing: continue the preparation.
    Preparing { run: usize, refs: JsonValue },
    /// Keep observing its run, dispatching the queued run again when asked.
    Observe { run: usize, refs: JsonValue, redispatch: bool, condition: Condition },
}

pub open spec fn blocked_message() -> Seq<char> {
    "The dispatched operation has no unique durable Run. Its resource locks are retained for recovery."@
}

pub open spec fn waiting_condition(expired: bool) -> (Seq<char>, Seq<char>) {
    if expired {
        ("wait_expired"@, "The bounded wait expired; existing execution is still observed and no new dispatch is attempted."@)
    } else {
        ("waiting"@, "Observing the existing Run. New stages wait for its sealed evidence and active workflow control."@)
    }
}

/// Whether a queued run is to be dispatched again.
pub open spec fn spec_redispatch(run: ObservedRun, control: Seq<char>, expired: bool, redispatch: bool) -> bool {
    redispatch && run.status@ == "queued"@ && control == "active"@ && !expired
}

fn first_stage_exec(stages: &Vec<ObservedStage>, run_id: &str) -> (r: Option<usize>)
    ensures
        match r {
            Some(k) => first_stage_of(stages@, run_id@) == Some(k as int) && k < stages@.len(),
            None => first_stage_of(stages@, run_id@) is None,
        },
{
    let n = stages.len();
    let mut i: usize = 0;
    proof {
        assert(stages@.subrange(0, n as int) =~= stages@);
    }
    while i < n
        invariant
            n == stages@.len(),
            i <= n,
            first_stage_of(stages@, run_id@) == match first_stage_of(stages@.subrange(i as int, n as int), run_id@) {
                Some(t) => Some(t + i),
                None => None::<int>,
            },
        decreases n - i,
    {
        let ghost rest = stages@.subrange(i as int, n as int);
        proof {
            assert(rest[0] == stages@[i as int]);
            assert(rest.drop_first() =~= stages@.subrange(i + 1, n as int));
        }
        let hit = match &stages[i].run_id {
            Some(r) => str_eq(r.as_str(), run_id),
            None => false,
        };
        if hit {
            return Some(i);
        }
        i = i + 1;
    }
    proof {
        assert(stages@.subrange(n as int, n as int) =~= Seq::<ObservedStage>::empty());
    }
    None
}

fn policy_bound(target: &JsonValue, policy_hash: Option<&str>) -> (r: bool)
    ensures
        r == spec_policy_bound(target@, crate::text::opt_str_view(policy_hash)),
{
    let member = target.get("hosted_workflow_policy_hash");
    match policy_hash {
        Some(h) => match member {
            Some(m) => match m.as_str() {
                Some(s) => str_eq(s, h),
                None => false,
            },
            None => false,
        },
        None => match member {
            Some(JsonValue::Null) => true,
            Some(_) => false,
            None => true,
        },
    }
}

/// The refusal owed when a dispatched operation's run cannot be followed.
pub open spec fn dispatched_refusal(stages: Seq<ObservedStage>, run: ObservedRun, policy_hash: Option<Seq<char>>) -> Seq<char> {
    if first_stage_of(stages, run.id@) is None {
        "partial Run startup has no stage execution; dispatch is withheld"@
    } else if !spec_startup_complete(stages, run, policy_hash) {
        "partial or conflicting Run startup cannot be dispatched"@
    } else {
        "a queued Run with consumed execution cannot be replayed"@
    }
}

/// Follow a dispatched operation through the single run it started.
pub fn dispatched_operation_step(
    refs: JsonValue,
    runs: &Vec<ObservedRun>,
    stages: &Vec<ObservedStage>,
    policy_hash: Option<&str>,
    control: &str,
    expired: bool,
    redispatch: bool,
) -> (r: Result<DispatchedStep, ApiError>)
    ensures
        r is Err <==> operation_run_count(refs@, runs@) == 1 && exists|i: int| 0 <= i < runs@.len() && #[trigger] spec_operation_run(refs@, runs@[i]) && {
            ||| !spec_startup_complete(stages@, runs@[i], crate::text::opt_str_view(policy_hash))
            ||| !is_terminal_run(runs@[i].status@) && runs@[i].status@ != "preparing"@
                && spec_redispatch(runs@[i], control@, expired, redispatch)
                && (runs@[i].turns_used != 0 || runs@[i].tokens_used != 0)
        },
        r matches Err(e) ==> e.kind == ErrorKind::Conflict && forall|i: int| 0 <= i < runs@.len() && #[trigger] spec_operation_run(refs@, runs@[i])
            ==> e.message@ == dispatched_refusal(stages@, runs@[i], crate::text::opt_str_view(policy_hash)),
        r matches Ok(DispatchedStep::Blocked(c)) ==> operation_run_count(refs@, runs@) != 1 && c.0@ == "blocked"@ && c.1@ == blocked_message(),
        r matches Ok(DispatchedStep::Terminal { run, refs: out, condition: c }) ==> {
            &&& run < runs@.len() && operation_run_count(refs@, runs@) == 1 && spec_operation_run(refs@, runs@[run as int])
            &&& spec_startup_complete(stages@, runs@[run as int], crate::text::opt_str_view(policy_hash))
            &&& is_terminal_run(runs@[run as int].status@)
            &&& out@ == spec_set_member(
                spec_observed_refs(refs@, runs@[run as int], stages@[first_stage_of(stages@, runs@[run as int].id@)->0]),
                "terminal_run_status"@,
                Json::Str(runs@[run as int].status@),
            )
            &&& c.0@ == "progressing"@ && c.1@ == "The existing Run is terminal; stage evidence will be evaluated next."@
        },
        r matches Ok(DispatchedStep::Preparing { run, refs: out }) ==> {
            &&& run < runs@.len() && operation_run_count(refs@, runs@) == 1 && spec_operation_run(refs@, runs@[run as int])
            &&& spec_startup_complete(stages@, runs@[run as int], crate::text::opt_str_view(policy_hash))
            &&& runs@[run as int].status@ == "preparing"@
            &&& out@ == spec_observed_refs(refs@, runs@[run as int], stages@[first_stage_of(stages@, runs@[run as int].id@)->0])
        },
        r matches Ok(DispatchedStep::Observe { run, refs: out, redispatch: d, condition: c }) ==> {
            &&& run < runs@.len() && operation_run_count(refs@, runs@) == 1 && spec_operation_run(refs@, runs@[run as int])
            &&& spec_startup_complete(stages@, runs@[run as int], crate::text::opt_str_view(policy_hash))
            &&& !is_terminal_run(runs@[run as int].status@) && runs@[run as int].status@ != "preparing"@
            &&& d == spec_redispatch(runs@[run as int], control@, expired, redispatch)
            &&& out@ == spec_observed_refs(refs@, runs@[run as int], stages@[first_stage_of(stages@, runs@[run as int].id@)->0])
            &&& (c.0@, c.1@) == waiting_condition(expired)
        },
{
    let i = match unique_operation_run(&refs, runs) {
        Some(i) => i,
        None => {
            return Ok(DispatchedStep::Blocked(condition(
                "blocked",
                String::from_str("The dispatched operation has no unique durable Run. Its resource locks are retained for recovery."),
            )));
        },
    };
    let run = &runs[i];
    proof {
        lemma_unique_run(refs@, runs@, i as int);
        if !(refs@ is Object) {
            lemma_non_object_refs_claim_no_run(refs@, runs@);
        }
    }
    let k = match first_stage_exec(stages, run.id.as_str()) {
        Some(k) => k,
        None => return Err(ApiError::conflict("partial Run startup has no stage execution; dispatch is withheld")),
    };
    if stages[k].context_pack_id.is_none() || !policy_bound(&run.execution_target, policy_hash) {
        return Err(ApiError::conflict("partial or conflicting Run startup cannot be dispatched"));
    }
    let refs1 = set_member(refs, "run_id", json_str(run.id.as_str()));
    let observed = set_member(refs1, "stage_execution_id", json_str(stages[k].id.as_str()));
    let status = run.status.as_str();
    if str_eq(status, "completed") || str_eq(status, "failed") || str_eq(status, "cancelled") {
        let out = set_member(observed, "terminal_run_status", json_str(status));
        return Ok(DispatchedStep::Terminal {
            run: i,
            refs: out,
            condition: condition("progressing", String::from_str("The existing Run is terminal; stage evidence will be evaluated next.")),
        });
    }
    if str_eq(status, "preparing") {
        return Ok(DispatchedStep::Preparing { run: i, refs: observed });
    }
    let again = redispatch && str_eq(status, "queued") && str_eq(control, "active") && !expired;
    if again && (run.turns_used != 0 || run.tokens_used != 0) {
        return Err(ApiError::conflict("a queued Run with consumed execution cannot be replayed"));
    }
    let c = if expired {
        condition("wait_expired", String::from_str("The bounded wait expired; existing execution is still observed and no new dispatch is attempted."))
    } else {
        condition("waiting", String::from_str("Observing the existing Run. New stages wait for its sealed evidence and active workflow control."))
    };
    Ok(DispatchedStep::Observe { run: i, refs: observed, redispatch: again, condition: c })
}

/// A pending operation of work that is not active, or whose wait expired,
/// is released and never dispatched again.
pub proof fn lemma_inactive_pending_operation_released(
    control: Seq<char>,
    expired: bool,
    op: WorkflowOperation,
    actions: Seq<OfferedAction>,
    continuation: Option<ContinuationMaterial>,
)
    requires
        control != "active"@ || expired,
    ensures
        spec_pending_step(control, expired, op, actions, continuation) == Ok::<Result<(Seq<char>, Seq<char>), Seq<char>>, Seq<char>>(
            Ok((control, pending_message())),
        ),
{
}

/// A queued run is dispatched again only for active, unexpired work.
pub proof fn lemma_redispatch_requires_active_work(run: ObservedRun, control: Seq<char>, expired: bool, redispatch: bool)
    requires
        spec_redispatch(run, control, expired, redispatch),
    ensures
        control == "active"@ && !expired && run.status@ == "queued"@,
{
}

} // verus!
