//! Deployment contracts and DeploymentIntents: the exact Argo CD sync a
//! target may receive, the review lifecycle of an intent, and the evidence
//! that an Argo CD Application converged.
use vstd::prelude::*;
use crate::error::{ApiError, ErrorKind};
use crate::gitops::{opt_str_is, StoredWorkItem};
use crate::json::{
    entries_get, get_str, get_str_at, path_view, str_at, str_member, Json, JsonNumber, JsonValue,
};
use crate::text::{opt_str_view, opt_text, str_eq};
use crate::execution_checks::{check_view, execution_check, ExecutionCheck};
use crate::gitops_delivery::{opt_gate, spec_gate_ready, ApprovalGateRef};
use crate::artifacts::{content_view, latest_matching, latest_of, opt_index, StoredArtifact};
use crate::json::{get_str as json_get_str, json_opt_str, json_str, lemma_object_view, obj_insert, entries_view};
use crate::validation::{clean_optional_text, normalized_executor_error_code, option_view, spec_clean_optional_text, spec_normalized_executor_error_code};

verus! {

/// Whether a post-sync verification is demanded by a contract.
#[derive(Clone, Copy, Debug, PartialEq, Eq, Structural)]
pub enum VerificationRequirement {
    Disabled,
    Required,
}

/// The runtime verification attached to a contract.
pub struct PostSyncVerificationContract {
    pub service_healthz: VerificationRequirement,
    pub prometheus_inventory: VerificationRequirement,
}

/// The reviewed shape of an Argo CD deployment for one target.
pub struct DeploymentContractSpec {
    pub operation: String,
    pub prune: bool,
    pub force: bool,
    pub workload_kind: Option<String>,
    pub workload_name: Option<String>,
    pub service_name: Option<String>,
    pub service_port: Option<u16>,
    pub health_path: Option<String>,
    pub post_sync_verification: PostSyncVerificationContract,
}


/// The keys a contract object may hold.
pub open spec fn is_contract_key(k: Seq<char>) -> bool {
    ||| k == "operation"@
    ||| k == "prune"@
    ||| k == "force"@
    ||| k == "workload_kind"@
    ||| k == "workload_name"@
    ||| k == "service_name"@
    ||| k == "service_port"@
    ||| k == "health_path"@
    ||| k == "post_sync_verification"@
}

pub open spec fn is_verification_key(k: Seq<char>) -> bool {
    k == "service_healthz"@ || k == "prometheus_inventory"@
}

/// An object whose keys are all contract fields.
pub open spec fn only_contract_keys(v: Json) -> bool {
    v matches Json::Object(es) && forall|i: int| 0 <= i < es.len() ==> is_contract_key(#[trigger] es[i].0)
}

/// An object whose keys are all verification fields.
pub open spec fn only_verification_keys(v: Json) -> bool {
    v matches Json::Object(es) && forall|i: int| 0 <= i < es.len() ==> is_verification_key(#[trigger] es[i].0)
}

/// A boolean field that defaults to false when absent; `None` when invalid.
pub open spec fn spec_bool_field(v: Json, key: Seq<char>) -> Option<bool> {
    match v.get(key) {
        None => Some(false),
        Some(Json::Bool(b)) => Some(b),
        Some(_) => None,
    }
}

/// An optional text field (absent or `null` is `None`); outer `None` when invalid.
pub open spec fn spec_opt_text_field(v: Json, key: Seq<char>) -> Option<Option<Seq<char>>> {
    match v.get(key) {
        None => Some(None),
        Some(Json::Null) => Some(None),
        Some(Json::Str(s)) => Some(Some(s)),
        Some(_) => None,
    }
}

/// An optional port field; outer `None` when invalid.
pub open spec fn spec_opt_port_field(v: Json, key: Seq<char>) -> Option<Option<int>> {
    match v.get(key) {
        None => Some(None),
        Some(Json::Null) => Some(None),
        Some(Json::Int(n)) => if 0 <= n <= 65535 {
            Some(Some(n))
        } else {
            None
        },
        Some(_) => None,
    }
}

/// A verification requirement field (`disabled` by default); `None` when invalid.
pub open spec fn spec_requirement_field(v: Json, key: Seq<char>) -> Option<VerificationRequirement> {
    match v.get(key) {
        None => Some(VerificationRequirement::Disabled),
        Some(Json::Str(s)) => if s == "disabled"@ {
            Some(VerificationRequirement::Disabled)
        } else if s == "required"@ {
            Some(VerificationRequirement::Required)
        } else {
            None
        },
        Some(_) => None,
    }
}

/// Whether the post-sync verification member is well formed.
pub open spec fn spec_verification_ok(v: Json) -> bool {
    match v.get("post_sync_verification"@) {
        None => true,
        Some(p) => {
            &&& only_verification_keys(p)
            &&& spec_requirement_field(p, "service_healthz"@) is Some
            &&& spec_requirement_field(p, "prometheus_inventory"@) is Some
        },
    }
}

pub open spec fn spec_verification_of(v: Json, key: Seq<char>) -> VerificationRequirement {
    match v.get("post_sync_verification"@) {
        None => VerificationRequirement::Disabled,
        Some(p) => spec_requirement_field(p, key)->0,
    }
}

/// A contract document is well formed: an object with only known fields,
/// a text `operation`, and every other field of its declared type.
pub open spec fn spec_contract_well_formed(v: Json) -> bool {
    &&& only_contract_keys(v)
    &&& str_member(v, "operation"@) is Some
    &&& spec_bool_field(v, "prune"@) is Some
    &&& spec_bool_field(v, "force"@) is Some
    &&& spec_opt_text_field(v, "workload_kind"@) is Some
    &&& spec_opt_text_field(v, "workload_name"@) is Some
    &&& spec_opt_text_field(v, "service_name"@) is Some
    &&& spec_opt_port_field(v, "service_port"@) is Some
    &&& spec_opt_text_field(v, "health_path"@) is Some
    &&& spec_verification_ok(v)
}

/// The contract a well-formed document describes.
pub open spec fn spec_contract_matches(c: DeploymentContractSpec, v: Json) -> bool {
    &&& Some(c.operation@) == str_member(v, "operation"@)
    &&& Some(c.prune) == spec_bool_field(v, "prune"@)
    &&& Some(c.force) == spec_bool_field(v, "force"@)
    &&& Some(opt_text(c.workload_kind)) == spec_opt_text_field(v, "workload_kind"@)
    &&& Some(opt_text(c.workload_name)) == spec_opt_text_field(v, "workload_name"@)
    &&& Some(opt_text(c.service_name)) == spec_opt_text_field(v, "service_name"@)
    &&& Some(
        match c.service_port {
            Some(p) => Some(p as int),
            None => None,
        },
    ) == spec_opt_port_field(v, "service_port"@)
    &&& Some(opt_text(c.health_path)) == spec_opt_text_field(v, "health_path"@)
    &&& c.post_sync_verification.service_healthz == spec_verification_of(v, "service_healthz"@)
    &&& c.post_sync_verification.prometheus_inventory == spec_verification_of(
        v,
        "prometheus_inventory"@,
    )
}

fn key_is_contract_key(k: &str) -> (r: bool)
    ensures
        r == is_contract_key(k@),
{
    str_eq(k, "operation") || str_eq(k, "prune") || str_eq(k, "force") || str_eq(k, "workload_kind")
        || str_eq(k, "workload_name") || str_eq(k, "service_name") || str_eq(k, "service_port")
        || str_eq(k, "health_path") || str_eq(k, "post_sync_verification")
}

fn key_is_verification_key(k: &str) -> (r: bool)
    ensures
        r == is_verification_key(k@),
{
    str_eq(k, "service_healthz") || str_eq(k, "prometheus_inventory")
}

fn contract_keys_known(v: &JsonValue) -> (r: bool)
    ensures
        r == only_contract_keys(v@),
{
    match v {
        JsonValue::Object(entries) => {
            let ghost es = v@->Object_0;
            let mut i: usize = 0;
            while i < entries.len()
                invariant
                    v@ == Json::Object(es),
                    es.len() == entries@.len(),
                    forall|k: int|
                        0 <= k < entries@.len() ==> #[trigger] es[k] == (
                            entries@[k].0@,
                            entries@[k].1@,
                        ),
                    i <= entries@.len(),
                    forall|k: int| 0 <= k < i ==> is_contract_key(#[trigger] es[k].0),
                decreases entries@.len() - i,
            {
                proof {
                    assert(es[i as int] == (entries@[i as int].0@, entries@[i as int].1@));
                }
                if !key_is_contract_key(entries[i].0.as_str()) {
                    proof {
                        assert(!is_contract_key(es[i as int].0));
                        assert(v@->Object_0 == es);
                        assert(!only_contract_keys(v@));
                    }
                    return false;
                }
                i = i + 1;
            }
            true
        },
        _ => false,
    }
}

fn verification_keys_known(v: &JsonValue) -> (r: bool)
    ensures
        r == only_verification_keys(v@),
{
    match v {
        JsonValue::Object(entries) => {
            let ghost es = v@->Object_0;
            let mut i: usize = 0;
            while i < entries.len()
                invariant
                    v@ == Json::Object(es),
                    es.len() == entries@.len(),
                    forall|k: int|
                        0 <= k < entries@.len() ==> #[trigger] es[k] == (
                            entries@[k].0@,
                            entries@[k].1@,
                        ),
                    i <= entries@.len(),
                    forall|k: int| 0 <= k < i ==> is_verification_key(#[trigger] es[k].0),
                decreases entries@.len() - i,
            {
                proof {
                    assert(es[i as int] == (entries@[i as int].0@, entries@[i as int].1@));
                }
                if !key_is_verification_key(entries[i].0.as_str()) {
                    proof {
                        assert(!is_verification_key(es[i as int].0));
                        assert(v@->Object_0 == es);
                        assert(!only_verification_keys(v@));
                    }
                    return false;
                }
                i = i + 1;
            }
            true
        },
        _ => false,
    }
}

fn bool_field(v: &JsonValue, key: &str) -> (r: Option<bool>)
    ensures
        r == spec_bool_field(v@, key@),
{
    match v.get(key) {
        None => Some(false),
        Some(JsonValue::Bool(b)) => Some(*b),
        Some(_) => None,
    }
}

fn opt_text_field(v: &JsonValue, key: &str) -> (r: Option<Option<String>>)
    ensures
        match r {
            Some(o) => spec_opt_text_field(v@, key@) == Some(opt_text(o)),
            None => spec_opt_text_field(v@, key@) is None,
        },
{
    match v.get(key) {
        None => Some(None),
        Some(JsonValue::Null) => Some(None),
        Some(JsonValue::Str(s)) => Some(Some(s.clone())),
        Some(_) => None,
    }
}

fn opt_port_field(v: &JsonValue, key: &str) -> (r: Option<Option<u16>>)
    ensures
        match r {
            Some(o) => spec_opt_port_field(v@, key@) == Some(
                match o {
                    Some(p) => Some(p as int),
                    None => None,
                },
            ),
            None => spec_opt_port_field(v@, key@) is None,
        },
{
    match v.get(key) {
        None => Some(None),
        Some(JsonValue::Null) => Some(None),
        Some(JsonValue::Number(JsonNumber::PosInt(n))) => if *n <= 65535 {
            Some(Some(*n as u16))
        } else {
            None
        },
        Some(JsonValue::Number(JsonNumber::NegInt(n))) => if 0 <= *n && *n <= 65535 {
            Some(Some(*n as u16))
        } else {
            None
        },
        Some(_) => None,
    }
}

fn requirement_field(v: &JsonValue, key: &str) -> (r: Option<VerificationRequirement>)
    ensures
        r == spec_requirement_field(v@, key@),
{
    match v.get(key) {
        None => Some(VerificationRequirement::Disabled),
        Some(JsonValue::Str(s)) => if str_eq(s.as_str(), "disabled") {
            Some(VerificationRequirement::Disabled)
        } else if str_eq(s.as_str(), "required") {
            Some(VerificationRequirement::Required)
        } else {
            None
        },
        Some(_) => None,
    }
}

/// Read a deployment contract from its stored JSON document.
pub fn deployment_contract_spec(value: &JsonValue) -> (r: Result<DeploymentContractSpec, ApiError>)
    ensures
        r is Ok <==> spec_contract_well_formed(value@),
        r matches Ok(c) ==> spec_contract_matches(c, value@),
        r matches Err(e) ==> e.kind == ErrorKind::BadRequest && e.message@ == if !(value@ is Object) {
            "deployment contract contract_json must be a JSON object"@
        } else {
            "deployment contract contract_json is invalid"@
        },
{
    if !value.is_object() {
        return Err(ApiError::bad_request("deployment contract contract_json must be a JSON object"));
    }
    let invalid = "deployment contract contract_json is invalid";
    if !contract_keys_known(value) {
        return Err(ApiError::bad_request(invalid));
    }
    let operation = match get_str(value, "operation") {
        Some(s) => s.to_owned(),
        None => {
            return Err(ApiError::bad_request(invalid));
        },
    };
    let prune = match bool_field(value, "prune") {
        Some(b) => b,
        None => {
            return Err(ApiError::bad_request(invalid));
        },
    };
    let force = match bool_field(value, "force") {
        Some(b) => b,
        None => {
            return Err(ApiError::bad_request(invalid));
        },
    };
    let workload_kind = match opt_text_field(value, "workload_kind") {
        Some(o) => o,
        None => {
            return Err(ApiError::bad_request(invalid));
        },
    };
    let workload_name = match opt_text_field(value, "workload_name") {
        Some(o) => o,
        None => {
            return Err(ApiError::bad_request(invalid));
        },
    };
    let service_name = match opt_text_field(value, "service_name") {
        Some(o) => o,
        None => {
            return Err(ApiError::bad_request(invalid));
        },
    };
    let service_port = match opt_port_field(value, "service_port") {
        Some(o) => o,
        None => {
            return Err(ApiError::bad_request(invalid));
        },
    };
    let health_path = match opt_text_field(value, "health_path") {
        Some(o) => o,
        None => {
            return Err(ApiError::bad_request(invalid));
        },
    };
    let post_sync_verification = match value.get("post_sync_verification") {
        None => PostSyncVerificationContract {
            service_healthz: VerificationRequirement::Disabled,
            prometheus_inventory: VerificationRequirement::Disabled,
        },
        Some(p) => {
            if !verification_keys_known(p) {
                return Err(ApiError::bad_request(invalid));
            }
            let service_healthz = match requirement_field(p, "service_healthz") {
                Some(x) => x,
                None => {
                    return Err(ApiError::bad_request(invalid));
                },
            };
            let prometheus_inventory = match requirement_field(p, "prometheus_inventory") {
                Some(x) => x,
                None => {
                    return Err(ApiError::bad_request(invalid));
                },
            };
            PostSyncVerificationContract { service_healthz, prometheus_inventory }
        },
    };
    Ok(
        DeploymentContractSpec {
            operation,
            prune,
            force,
            workload_kind,
            workload_name,
            service_name,
            service_port,
            health_path,
            post_sync_verification,
        },
    )
}

/// A contract may only ask for a plain sync: no prune, no force.
pub open spec fn spec_contract_valid(c: DeploymentContractSpec) -> bool {
    c.operation@ == "sync"@ && !c.prune && !c.force
}

pub fn validate_deployment_contract_spec(contract: &DeploymentContractSpec) -> (r: Result<(), ApiError>)
    ensures
        r is Ok <==> spec_contract_valid(*contract),
        r matches Err(e) ==> e.kind == ErrorKind::BadRequest && e.message@ == if contract.operation@ != "sync"@ {
            "deployment contract operation must be sync"@
        } else {
            "deployment contract prune and force must remain false"@
        },
{
    if !str_eq(contract.operation.as_str(), "sync") {
        return Err(ApiError::bad_request("deployment contract operation must be sync"));
    }
    if contract.prune || contract.force {
        return Err(ApiError::bad_request("deployment contract prune and force must remain false"));
    }
    Ok(())
}

/// The protected production contract pins the exact workload, service, port
/// and health check, and demands the health check after every sync.
pub open spec fn spec_protected_contract(c: DeploymentContractSpec) -> bool {
    &&& opt_text(c.workload_kind) == Some("Deployment"@)
    &&& opt_text(c.workload_name) == Some("yfinance-wrapper"@)
    &&& opt_text(c.service_name) == Some("yfinance-wrapper"@)
    &&& c.service_port == Some(8090u16)
    &&& opt_text(c.health_path) == Some("/healthz"@)
    &&& c.post_sync_verification.service_healthz == VerificationRequirement::Required
}

pub fn validate_protected_production_deployment_contract(contract: &DeploymentContractSpec) -> (r:
    Result<(), ApiError>)
    ensures
        r is Ok <==> spec_protected_contract(*contract),
        r matches Err(e) ==> e.kind == ErrorKind::BadRequest
            && e.message@ == "protected production DeploymentContract must pin Deployment/yfinance-wrapper and the exact yfinance-wrapper:8090/healthz check"@,
{
    if !opt_str_is(&contract.workload_kind, "Deployment") || !opt_str_is(
        &contract.workload_name,
        "yfinance-wrapper",
    ) || !opt_str_is(&contract.service_name, "yfinance-wrapper") || contract.service_port != Some(
        8090u16,
    ) || !opt_str_is(&contract.health_path, "/healthz")
        || contract.post_sync_verification.service_healthz != VerificationRequirement::Required {
        return Err(
            ApiError::bad_request(
                "protected production DeploymentContract must pin Deployment/yfinance-wrapper and the exact yfinance-wrapper:8090/healthz check",
            ),
        );
    }
    Ok(())
}

/// A DeploymentIntent as stored.
pub struct StoredDeploymentIntent {
    pub id: String,
    pub status: String,
    pub pipeline_intent_id: String,
    pub change_set_id: String,
    pub work_plan_id: String,
    pub run_id: Option<String>,
    pub target_environment: Option<String>,
    pub target_namespace: Option<String>,
    pub argo_application: Option<String>,
}

/// The Argo CD target of a DeploymentIntent.
pub struct DeploymentTarget {
    pub environment: String,
    pub namespace: String,
    pub application: String,
}

/// The target of an intent that names all three of environment, namespace
/// and Argo application.
pub fn deployment_target(intent: &StoredDeploymentIntent) -> (r: Result<DeploymentTarget, ApiError>)
    ensures
        r is Ok <==> (intent.target_environment is Some && intent.target_namespace is Some
            && intent.argo_application is Some),
        r matches Ok(t) ==> {
            &&& t.environment@ == intent.target_environment->0@
            &&& t.namespace@ == intent.target_namespace->0@
            &&& t.application@ == intent.argo_application->0@
        },
        r matches Err(e) ==> e.kind == ErrorKind::Conflict && e.message@ == if intent.target_environment is None {
            "DeploymentIntent target_environment is required for Argo preflight"@
        } else if intent.target_namespace is None {
            "DeploymentIntent target_namespace is required for Argo preflight"@
        } else {
            "DeploymentIntent argo_application is required for Argo preflight"@
        },
{
    let environment = match &intent.target_environment {
        Some(v) => v.clone(),
        None => {
            return Err(
                ApiError::conflict("DeploymentIntent target_environment is required for Argo preflight"),
            );
        },
    };
    let namespace = match &intent.target_namespace {
        Some(v) => v.clone(),
        None => {
            return Err(
                ApiError::conflict("DeploymentIntent target_namespace is required for Argo preflight"),
            );
        },
    };
    let application = match &intent.argo_application {
        Some(v) => v.clone(),
        None => {
            return Err(
                ApiError::conflict("DeploymentIntent argo_application is required for Argo preflight"),
            );
        },
    };
    Ok(DeploymentTarget { environment, namespace, application })
}

/// The intent's target is exactly its WorkItem's supported target.
pub open spec fn spec_target_supported(work_item: StoredWorkItem, target_supported: bool, t: DeploymentTarget) -> bool {
    &&& target_supported
    &&& t.environment@ == work_item.target_environment@
    &&& work_item.target_namespace matches Some(n) && n@ == t.namespace@
    &&& work_item.argo_application matches Some(a) && a@ == t.application@
}

/// A DeploymentIntent target is supported only when it is its WorkItem's
/// own target: the same environment, namespace and Argo application, the
/// WorkItem naming both the namespace and the application. An intent for
/// any other application never passes.
pub proof fn lemma_supported_target_is_the_work_items(work_item: StoredWorkItem, target_supported: bool, t: DeploymentTarget)
    ensures
        spec_target_supported(work_item, target_supported, t) ==> {
            &&& target_supported
            &&& t.environment@ == work_item.target_environment@
            &&& work_item.target_namespace is Some && work_item.target_namespace->0@ == t.namespace@
            &&& work_item.argo_application is Some && work_item.argo_application->0@ == t.application@
        },
        work_item.argo_application is None ==> !spec_target_supported(work_item, target_supported, t),
        (work_item.argo_application matches Some(a) && a@ != t.application@) ==> !spec_target_supported(
            work_item,
            target_supported,
            t,
        ),
{
}

/// `target_supported` states whether the WorkItem targets dev or the exact
/// protected production target.
pub fn ensure_supported_deployment_target(
    work_item: &StoredWorkItem,
    target_supported: bool,
    target: &DeploymentTarget,
) -> (r: Result<(), ApiError>)
    ensures
        r is Ok <==> spec_target_supported(*work_item, target_supported, *target),
        r is Ok ==> {
            &&& target_supported
            &&& target.environment@ == work_item.target_environment@
            &&& work_item.target_namespace is Some && work_item.target_namespace->0@ == target.namespace@
            &&& work_item.argo_application is Some && work_item.argo_application->0@ == target.application@
        },
        r matches Err(e) ==> e.kind == ErrorKind::Conflict && e.message@ == if !target_supported {
            "Argo trusted envelopes require either a non-production dev WorkItem or the exact protected production target"@
        } else {
            "DeploymentIntent target must exactly match its WorkItem target"@
        },
{
    if !target_supported {
        return Err(
            ApiError::conflict(
                "Argo trusted envelopes require either a non-production dev WorkItem or the exact protected production target",
            ),
        );
    }
    if !str_eq(target.environment.as_str(), work_item.target_environment.as_str()) || !opt_str_is(
        &work_item.target_namespace,
        target.namespace.as_str(),
    ) || !opt_str_is(&work_item.argo_application, target.application.as_str()) {
        return Err(ApiError::conflict("DeploymentIntent target must exactly match its WorkItem target"));
    }
    Ok(())
}

/// A proposed intent may be approved or rejected, an approved one
/// rejected; re-proposing a proposed intent is a no-op.
pub open spec fn spec_intent_transition_ok(current: Seq<char>, target: Seq<char>) -> bool {
    ||| (current == "proposed"@ && (target == "approved"@ || target == "rejected"@))
    ||| (current == "approved"@ && target == "rejected"@)
    ||| (target == "proposed"@ && current == target)
}

pub fn validate_deployment_intent_transition(current: &str, target: &str) -> (r: Result<(), ApiError>)
    ensures
        r is Ok <==> spec_intent_transition_ok(current@, target@),
        r matches Err(e) ==> e.kind == ErrorKind::Conflict && e.message@ == "cannot transition deployment intent from "@
            + current@ + " to "@ + target@,
{
    if (str_eq(current, "proposed") && (str_eq(target, "approved") || str_eq(target, "rejected")))
        || (str_eq(current, "approved") && str_eq(target, "rejected")) || (str_eq(target, "proposed")
        && str_eq(current, target)) {
        return Ok(());
    }
    let message = String::from_str("cannot transition deployment intent from ").concat(current).concat(
        " to ",
    ).concat(target);
    Err(ApiError::with_message(ErrorKind::Conflict, message))
}

/// Once rejected, an intent stays rejected; no transition returns an
/// approved intent to proposed.
pub proof fn lemma_intent_rejection_final(target: Seq<char>)
    ensures
        !spec_intent_transition_ok("rejected"@, target),
        !spec_intent_transition_ok("approved"@, "proposed"@),
        !spec_intent_transition_ok("approved"@, "approved"@),
{
    reveal_strlit("rejected");
    reveal_strlit("proposed");
    reveal_strlit("approved");
    assert("approved"@[0] != "proposed"@[0]);
    assert("rejected"@[0] != "proposed"@[0]);
    assert("rejected"@[0] != "approved"@[0]);
}

/// The only DeploymentContract transition: active to retired.
pub fn validate_deployment_contract_transition(current: &str, target: &str) -> (r: Result<(), ApiError>)
    ensures
        r is Ok <==> (current@ == "active"@ && target@ == "retired"@),
        r matches Err(e) ==> e.kind == ErrorKind::Conflict && e.message@
            == "DeploymentContract can only transition from active to retired, not "@ + current@ + " to "@ + target@,
{
    if !str_eq(current, "active") || !str_eq(target, "retired") {
        let message = String::from_str(
            "DeploymentContract can only transition from active to retired, not ",
        ).concat(current).concat(" to ").concat(target);
        return Err(ApiError::with_message(ErrorKind::Conflict, message));
    }
    Ok(())
}

/// A contract that touches the protected production environment, namespace
/// or application must target exactly `production/apps-prod/yfinance-wrapper`.
pub open spec fn spec_touches_protected(env: Seq<char>, ns: Seq<char>, app: Seq<char>) -> bool {
    env == "production"@ || ns == "apps-prod"@ || app == "yfinance-wrapper"@
}

pub open spec fn spec_is_protected_target(env: Seq<char>, ns: Seq<char>, app: Seq<char>) -> bool {
    env == "production"@ && ns == "apps-prod"@ && app == "yfinance-wrapper"@
}

/// Check the target and document of a new DeploymentContract: a valid sync
/// contract, and the exact protected contract wherever the protected target
/// is touched.
pub fn validate_deployment_contract_target(
    target_environment: &str,
    target_namespace: &str,
    argo_application: &str,
    contract: &DeploymentContractSpec,
) -> (r: Result<(), ApiError>)
    ensures
        r is Ok <==> spec_contract_valid(*contract) && (spec_touches_protected(
            target_environment@,
            target_namespace@,
            argo_application@,
        ) ==> spec_is_protected_target(target_environment@, target_namespace@, argo_application@)
            && spec_protected_contract(*contract)),
        r matches Err(e) ==> e.kind == ErrorKind::BadRequest && e.message@ == if contract.operation@ != "sync"@ {
            "deployment contract operation must be sync"@
        } else if contract.prune || contract.force {
            "deployment contract prune and force must remain false"@
        } else if !spec_is_protected_target(target_environment@, target_namespace@, argo_application@) {
            "production DeploymentContract target must exactly match production/apps-prod/yfinance-wrapper"@
        } else {
            "protected production DeploymentContract must pin Deployment/yfinance-wrapper and the exact yfinance-wrapper:8090/healthz check"@
        },
{
    validate_deployment_contract_spec(contract)?;
    let env_protected = str_eq(target_environment, "production");
    let ns_protected = str_eq(target_namespace, "apps-prod");
    let app_protected = str_eq(argo_application, "yfinance-wrapper");
    if env_protected || ns_protected || app_protected {
        if !env_protected || !ns_protected || !app_protected {
            return Err(
                ApiError::bad_request(
                    "production DeploymentContract target must exactly match production/apps-prod/yfinance-wrapper",
                ),
            );
        }
        validate_protected_production_deployment_contract(contract)?;
    }
    Ok(())
}

/// How an Argo CD Application reports convergence.
pub open spec fn spec_evidence_status(output: Json) -> Seq<char> {
    let sync = str_at(output, seq!["status"@, "sync"@, "status"@]);
    let health = str_at(output, seq!["status"@, "health"@, "status"@]);
    match (sync, health) {
        (Some(s), Some(h)) => if s == "Synced"@ && h == "Healthy"@ {
            "satisfied"@
        } else {
            "attention_required"@
        },
        (Some(s), None) => if s == "Synced"@ {
            "unknown"@
        } else {
            "attention_required"@
        },
        (None, Some(h)) => if h == "Healthy"@ {
            "unknown"@
        } else {
            "attention_required"@
        },
        (None, None) => "unknown"@,
    }
}

pub fn deployment_intent_evidence_status(output: &JsonValue) -> (r: &'static str)
    ensures
        r@ == spec_evidence_status(output@),
{
    let sp = ["status", "sync", "status"];
    let hp = ["status", "health", "status"];
    proof {
        assert(path_view(sp@) =~= seq!["status"@, "sync"@, "status"@]);
        assert(path_view(hp@) =~= seq!["status"@, "health"@, "status"@]);
    }
    let sync = get_str_at(output, &sp);
    let health = get_str_at(output, &hp);
    match (sync, health) {
        (Some(s), Some(h)) => if str_eq(s, "Synced") && str_eq(h, "Healthy") {
            "satisfied"
        } else {
            "attention_required"
        },
        (Some(s), None) => if str_eq(s, "Synced") {
            "unknown"
        } else {
            "attention_required"
        },
        (None, Some(h)) => if str_eq(h, "Healthy") {
            "unknown"
        } else {
            "attention_required"
        },
        (None, None) => "unknown",
    }
}

/// An observation as the deployment evidence reads it.
pub struct StoredObservation {
    pub id: String,
    pub source: String,
    pub kind: String,
    pub resource_kind: Option<String>,
    pub data_json: JsonValue,
}

/// Deployment evidence must be an Argo CD observation of an Application
/// that carries its status.
pub open spec fn spec_observation_is_application_evidence(o: StoredObservation) -> bool {
    &&& o.source@ == "argocd"@
    &&& (o.kind@ == "applications.argoproj.io"@ || opt_text(o.resource_kind) == Some("Application"@)
        || str_at(o.data_json@, seq!["output"@, "kind"@]) == Some("Application"@))
    &&& o.data_json@.pointer(seq!["output"@, "status"@]) is Some
}

pub fn validate_deployment_intent_observation(observation: &StoredObservation) -> (r: Result<(), ApiError>)
    ensures
        r is Ok <==> spec_observation_is_application_evidence(*observation),
        r matches Err(e) ==> e.kind == ErrorKind::BadRequest && e.message@ == if observation.source@ != "argocd"@ {
            "deployment intent evidence must be an argocd Application observation"@
        } else if !(observation.kind@ == "applications.argoproj.io"@ || opt_text(observation.resource_kind) == Some(
            "Application"@,
        ) || str_at(observation.data_json@, seq!["output"@, "kind"@]) == Some("Application"@)) {
            "deployment intent evidence must describe an Argo CD Application"@
        } else {
            "deployment intent evidence observation is missing Argo Application status"@
        },
{
    if !str_eq(observation.source.as_str(), "argocd") {
        return Err(
            ApiError::bad_request("deployment intent evidence must be an argocd Application observation"),
        );
    }
    let kp = ["output", "kind"];
    let sp = ["output", "status"];
    proof {
        assert(path_view(kp@) =~= seq!["output"@, "kind"@]);
        assert(path_view(sp@) =~= seq!["output"@, "status"@]);
    }
    let looks_like_application = str_eq(observation.kind.as_str(), "applications.argoproj.io")
        || opt_str_is(&observation.resource_kind, "Application") || match get_str_at(
        &observation.data_json,
        &kp,
    ) {
        Some(k) => str_eq(k, "Application"),
        None => false,
    };
    if !looks_like_application {
        return Err(
            ApiError::bad_request("deployment intent evidence must describe an Argo CD Application"),
        );
    }
    if observation.data_json.pointer(&sp).is_none() {
        return Err(
            ApiError::bad_request(
                "deployment intent evidence observation is missing Argo Application status",
            ),
        );
    }
    Ok(())
}

/// The status a result artifact of `result_kind` records for an execution.
pub open spec fn spec_result_status(a: StoredArtifact, result_kind: Seq<char>, execution_id: Seq<char>) -> Option<Seq<char>> {
    if a.kind@ == result_kind {
        match content_view(a) {
            Some(c) => if str_member(c, "execution_id"@) == Some(execution_id) {
                str_member(c, "status"@)
            } else {
                None
            },
            None => None,
        }
    } else {
        None
    }
}

/// The status recorded for an execution: the status of the first result of
/// `result_kind` recorded for it, else `dispatched`.
pub open spec fn spec_recorded_status_from(arts: Seq<StoredArtifact>, result_kind: Seq<char>, execution_id: Seq<char>, from: int) -> Seq<char>
    decreases arts.len() - from,
{
    if from >= arts.len() || from < 0 {
        "dispatched"@
    } else {
        match spec_result_status(arts[from], result_kind, execution_id) {
            Some(st) => st,
            None => spec_recorded_status_from(arts, result_kind, execution_id, from + 1),
        }
    }
}

pub fn recorded_execution_status(artifacts: &Vec<StoredArtifact>, result_kind: &str, execution_id: &str) -> (r: String)
    ensures
        r@ == spec_recorded_status_from(artifacts@, result_kind@, execution_id@, 0),
{
    let mut i: usize = 0;
    while i < artifacts.len()
        invariant
            i <= artifacts@.len(),
            spec_recorded_status_from(artifacts@, result_kind@, execution_id@, 0)
                == spec_recorded_status_from(artifacts@, result_kind@, execution_id@, i as int),
        decreases artifacts@.len() - i,
    {
        let a = &artifacts[i];
        if str_eq(a.kind.as_str(), result_kind) {
            if let Some(c) = &a.content_json {
                if crate::json::str_member_is(c, "execution_id", execution_id) {
                    if let Some(status) = json_get_str(c, "status") {
                        return status.to_owned();
                    }
                }
            }
        }
        i = i + 1;
    }
    String::from_str("dispatched")
}

/// An outcome reported by the Argo sync runner.
pub struct ArgoSyncOutcomeRequest {
    pub execution_id: String,
    pub status: String,
    pub sync_status: Option<String>,
    pub health_status: Option<String>,
    pub operation_phase: Option<String>,
    pub revision: Option<String>,
    pub error_code: Option<String>,
}

pub open spec fn opt_json_text(o: Option<Seq<char>>) -> Json {
    match o {
        Some(t) => Json::Str(t),
        None => Json::Null,
    }
}

/// The result the controller records for a runner outcome: the status and
/// the details kept with it.
pub open spec fn spec_argo_outcome(
    status: Seq<char>,
    sync_status: Option<Seq<char>>,
    health_status: Option<Seq<char>>,
    operation_phase: Option<Seq<char>>,
    revision: Option<Seq<char>>,
    error_code: Option<Seq<char>>,
) -> Option<(Seq<char>, Json)> {
    let sync = spec_clean_optional_text(sync_status);
    let phase = spec_clean_optional_text(operation_phase);
    let health = spec_clean_optional_text(health_status);
    let rev = spec_clean_optional_text(revision);
    if status == "submitted"@ {
        Some((status, Json::Object(Seq::empty())))
    } else if status == "completed"@ {
        if sync == Some("Synced"@) && phase == Some("Succeeded"@) {
            Some(
                (
                    status,
                    Json::Object(
                        seq![
                            ("sync_status"@, Json::Str("Synced"@)),
                            ("health_status"@, opt_json_text(health)),
                            ("operation_phase"@, Json::Str("Succeeded"@)),
                            ("revision"@, opt_json_text(rev)),
                        ],
                    ),
                ),
            )
        } else {
            None
        }
    } else if status == "failed"@ || status == "cancelled"@ {
        let fallback = if status == "cancelled"@ {
            "cancelled"@
        } else {
            "argo_sync_failed"@
        };
        Some(
            (
                status,
                Json::Object(
                    seq![
                        ("error_code"@, Json::Str(spec_normalized_executor_error_code(error_code, fallback))),
                        ("sync_status"@, opt_json_text(sync)),
                        ("health_status"@, opt_json_text(health)),
                        ("operation_phase"@, opt_json_text(phase)),
                        ("revision"@, opt_json_text(rev)),
                    ],
                ),
            ),
        )
    } else {
        None
    }
}

fn json_opt_string(o: Option<String>) -> (r: JsonValue)
    ensures
        r@ == opt_json_text(option_view(o)),
{
    match o {
        Some(s) => JsonValue::Str(s),
        None => JsonValue::Null,
    }
}

/// Classify a runner outcome into the result to record. A completed sync
/// must report `Synced` and `Succeeded`; failures keep a normalized code.
pub fn argo_sync_outcome_result(request: ArgoSyncOutcomeRequest) -> (r: Result<(String, JsonValue), ApiError>)
    ensures
        r is Ok <==> spec_argo_outcome(
            request.status@,
            option_view(request.sync_status),
            option_view(request.health_status),
            option_view(request.operation_phase),
            option_view(request.revision),
            option_view(request.error_code),
        ) is Some,
        r matches Ok(x) ==> Some((x.0@, x.1@)) == spec_argo_outcome(
            request.status@,
            option_view(request.sync_status),
            option_view(request.health_status),
            option_view(request.operation_phase),
            option_view(request.revision),
            option_view(request.error_code),
        ),
        r matches Err(e) ==> (e.kind == ErrorKind::BadRequest || e.kind == ErrorKind::Conflict),
{
    let ArgoSyncOutcomeRequest { execution_id: _, status, sync_status, health_status, operation_phase, revision, error_code } = request;
    if str_eq(status.as_str(), "submitted") {
        let entries: Vec<(String, JsonValue)> = Vec::new();
        proof {
            lemma_object_view(entries);
            assert(entries_view(entries@) =~= Seq::empty());
        }
        return Ok((status, JsonValue::Object(entries)));
    }
    if str_eq(status.as_str(), "completed") {
        let sync = match clean_optional_text(sync_status) {
            Some(s) => s,
            None => {
                return Err(ApiError::bad_request("completed Argo outcome requires sync_status"));
            },
        };
        let phase = match clean_optional_text(operation_phase) {
            Some(p) => p,
            None => {
                return Err(ApiError::bad_request("completed Argo outcome requires operation_phase"));
            },
        };
        if !str_eq(sync.as_str(), "Synced") || !str_eq(phase.as_str(), "Succeeded") {
            return Err(
                ApiError::conflict(
                    "completed Argo outcome requires Synced status and Succeeded operation phase",
                ),
            );
        }
        let mut entries: Vec<(String, JsonValue)> = Vec::new();
        obj_insert(&mut entries, "sync_status", JsonValue::Str(sync));
        obj_insert(&mut entries, "health_status", json_opt_string(clean_optional_text(health_status)));
        obj_insert(&mut entries, "operation_phase", JsonValue::Str(phase));
        obj_insert(&mut entries, "revision", json_opt_string(clean_optional_text(revision)));
        proof {
            lemma_object_view(entries);
            let sv = entries_view(entries@);
            assert(sv.len() == 4);
            assert(sv =~= seq![
                ("sync_status"@, Json::Str("Synced"@)),
                ("health_status"@, opt_json_text(spec_clean_optional_text(option_view(health_status)))),
                ("operation_phase"@, Json::Str("Succeeded"@)),
                ("revision"@, opt_json_text(spec_clean_optional_text(option_view(revision)))),
            ]);
        }
        return Ok((status, JsonValue::Object(entries)));
    }
    if str_eq(status.as_str(), "failed") || str_eq(status.as_str(), "cancelled") {
        let fallback = if str_eq(status.as_str(), "cancelled") {
            "cancelled"
        } else {
            "argo_sync_failed"
        };
        let mut entries: Vec<(String, JsonValue)> = Vec::new();
        obj_insert(&mut entries, "error_code", JsonValue::Str(normalized_executor_error_code(error_code, fallback)));
        obj_insert(&mut entries, "sync_status", json_opt_string(clean_optional_text(sync_status)));
        obj_insert(&mut entries, "health_status", json_opt_string(clean_optional_text(health_status)));
        obj_insert(&mut entries, "operation_phase", json_opt_string(clean_optional_text(operation_phase)));
        obj_insert(&mut entries, "revision", json_opt_string(clean_optional_text(revision)));
        proof {
            lemma_object_view(entries);
            let fb = if status@ == "cancelled"@ { "cancelled"@ } else { "argo_sync_failed"@ };
            assert(entries_view(entries@) =~= seq![
                ("error_code"@, Json::Str(spec_normalized_executor_error_code(option_view(error_code), fb))),
                ("sync_status"@, opt_json_text(spec_clean_optional_text(option_view(sync_status)))),
                ("health_status"@, opt_json_text(spec_clean_optional_text(option_view(health_status)))),
                ("operation_phase"@, opt_json_text(spec_clean_optional_text(option_view(operation_phase)))),
                ("revision"@, opt_json_text(spec_clean_optional_text(option_view(revision)))),
            ]);
        }
        return Ok((status, JsonValue::Object(entries)));
    }
    Err(
        ApiError::bad_request(
            "Argo sync outcome status must be submitted, completed, failed, or cancelled",
        ),
    )
}

/// A DeploymentContract as stored.
pub struct StoredDeploymentContract {
    pub id: String,
    pub version: String,
    pub target_environment: String,
    pub contract_json: JsonValue,
}

/// What was observed of the GitOps merge a deployment must follow.
pub enum GitOpsMergeObservation {
    /// The merge was observed and recorded by this artifact.
    Merged { artifact_id: String, merge_commit_sha: Option<String> },
    /// The WorkItem declares no GitOps repository/ref; no merge is required.
    NotRequired,
    /// A merge is required but unavailable, for the given reason.
    Unavailable(String),
}

/// The facts an Argo CD execution preflight is decided on.
pub struct DeploymentPreflightFacts {
    pub intent_status: String,
    pub pipeline_intent_status: String,
    pub change_set_status: String,
    pub work_plan_status: String,
    /// Why the PipelineRun evidence is not ready, if it is not.
    pub pipeline_evidence_error: Option<String>,
    pub work_item: Option<StoredWorkItem>,
    /// Whether the WorkItem targets dev or the exact protected production target.
    pub work_item_target_supported: bool,
    pub target: Option<DeploymentTarget>,
    /// For a production-impacting WorkItem: whether a baseline and a
    /// digest-bound RollbackIntent are prepared.
    pub rollback_ready: bool,
    pub gitops_merge: GitOpsMergeObservation,
    /// The active contracts for the exact target.
    pub contracts: Vec<StoredDeploymentContract>,
    /// For each required gate kind, the scoped gate found, if any.
    pub gates: Vec<Option<ApprovalGateRef>>,
    /// The matching supervised-autonomy grant, if any.
    pub grant_id: Option<String>,
}

pub open spec fn spec_production_impacting(f: DeploymentPreflightFacts) -> bool {
    f.work_item matches Some(w) && w.production_impacting
}

/// The approval gates an Argo execution requires.
pub open spec fn spec_deployment_gate_kinds(production_impacting: bool) -> Seq<Seq<char>> {
    if production_impacting {
        seq!["cluster_mutation"@, "production_impact"@, "production_deployment"@]
    } else {
        seq!["cluster_mutation"@]
    }
}

pub fn deployment_gate_kinds(production_impacting: bool) -> (r: Vec<&'static str>)
    ensures
        r@.map_values(|k: &str| k@) == spec_deployment_gate_kinds(production_impacting),
{
    let mut v = Vec::new();
    v.push("cluster_mutation");
    if production_impacting {
        v.push("production_impact");
        v.push("production_deployment");
    }
    proof {
        assert(v@.map_values(|k: &str| k@) =~= spec_deployment_gate_kinds(production_impacting));
    }
    v
}

/// The single active contract for the target is well formed, a plain sync,
/// and the exact protected contract on the protected environment.
pub open spec fn spec_contract_ready(contracts: Seq<StoredDeploymentContract>) -> bool {
    contracts.len() == 1 && {
        let c = contracts[0];
        &&& spec_contract_well_formed(c.contract_json@)
        &&& forall|spec: DeploymentContractSpec|
            spec_contract_matches(spec, c.contract_json@) ==> spec_contract_valid(spec) && (
            c.target_environment@ == "production"@ ==> spec_protected_contract(spec))
    }
}

pub open spec fn spec_merge_ok(f: DeploymentPreflightFacts) -> bool {
    f.work_item is Some && !(f.gitops_merge is Unavailable)
}

pub open spec fn spec_target_ok(f: DeploymentPreflightFacts) -> bool {
    f.work_item matches Some(w) && f.target matches Some(t) && spec_target_supported(
        w,
        f.work_item_target_supported,
        t,
    )
}

/// The checks that precede the approval gates.
pub open spec fn spec_leading_checks(f: DeploymentPreflightFacts) -> Seq<(Seq<char>, bool)> {
    seq![
        ("deployment_intent_approved"@, f.intent_status@ == "approved"@),
        ("pipeline_intent_approved"@, f.pipeline_intent_status@ == "approved"@),
        ("change_set_approved"@, f.change_set_status@ == "approved"@),
        ("work_plan_approved"@, f.work_plan_status@ == "approved"@),
        ("pipeline_evidence_ready"@, f.pipeline_evidence_error is None),
        ("supported_work_item_target"@, spec_target_ok(f)),
    ] + (if spec_production_impacting(f) {
        seq![("production_baseline_and_rollback"@, f.rollback_ready)]
    } else {
        Seq::empty()
    }) + seq![
        ("gitops_revision_merged"@, spec_merge_ok(f)),
        ("active_deployment_contract"@, spec_contract_ready(f.contracts@)),
    ]
}

/// One check per required approval gate.
pub open spec fn spec_gate_checks(f: DeploymentPreflightFacts, n: nat) -> Seq<(Seq<char>, bool)> {
    let kinds = spec_deployment_gate_kinds(spec_production_impacting(f));
    Seq::new(n, |i: int| ("approval_gate_"@ + kinds[i], spec_gate_ready(f.gates@[i])))
}

/// The code and outcome of every check, in order.
pub open spec fn spec_deployment_checks(f: DeploymentPreflightFacts) -> Seq<(Seq<char>, bool)> {
    spec_leading_checks(f) + spec_gate_checks(
        f,
        spec_deployment_gate_kinds(spec_production_impacting(f)).len(),
    ) + seq![("trusted_execution_envelope"@, f.grant_id is Some)]
}

pub open spec fn chain_required() -> Seq<char> {
    "Argo preflight requires a WorkItem-backed delivery chain"@
}

/// The summary of the target check.
pub open spec fn spec_target_summary(f: DeploymentPreflightFacts) -> Seq<char> {
    match (f.work_item, f.target) {
        (None, _) => chain_required(),
        (_, None) => "DeploymentIntent needs target environment, namespace, and Argo application"@,
        (Some(w), Some(t)) => if !f.work_item_target_supported {
            "Argo trusted envelopes require either a non-production dev WorkItem or the exact protected production target"@
        } else if !spec_target_supported(w, f.work_item_target_supported, t) {
            "DeploymentIntent target must exactly match its WorkItem target"@
        } else {
            "DeploymentIntent exactly matches a supported dev or protected-production WorkItem target"@
        },
    }
}

/// The summary of the GitOps merge check.
pub open spec fn spec_merge_summary(f: DeploymentPreflightFacts) -> Seq<char> {
    match f.work_item {
        None => chain_required(),
        Some(_) => match f.gitops_merge {
            GitOpsMergeObservation::Merged { artifact_id, merge_commit_sha } => "GitOps merge artifact "@ + artifact_id@
                + " records immutable revision "@ + match merge_commit_sha {
                Some(sha) => sha@,
                None => "unknown"@,
            },
            GitOpsMergeObservation::NotRequired => "WorkItem does not declare a GitOps repository/ref; no GitOps merge is required"@,
            GitOpsMergeObservation::Unavailable(m) => m@,
        },
    }
}

/// The summary of the contract check where it is determined here: no or
/// several matching contracts, or the one contract passing. A single
/// contract that fails carries the contract reader's or validator's refusal.
pub open spec fn spec_contract_summary(contracts: Seq<StoredDeploymentContract>) -> Option<Seq<char>> {
    if contracts.len() == 0 {
        Some("No active DeploymentContract exactly matches the deployment target"@)
    } else if contracts.len() > 1 {
        Some("Multiple active DeploymentContracts match the target; retire the older contract"@)
    } else if spec_contract_ready(contracts) {
        Some("Active DeploymentContract "@ + contracts[0].id@ + " version "@ + contracts[0].version@ + " exactly matches target"@)
    } else {
        None
    }
}

/// The summaries of the checks that precede the approval gates.
pub open spec fn spec_leading_summaries(f: DeploymentPreflightFacts) -> Seq<Option<Seq<char>>> {
    seq![
        Some("DeploymentIntent status is "@ + f.intent_status@),
        Some("PipelineIntent status is "@ + f.pipeline_intent_status@),
        Some("ChangeSet status is "@ + f.change_set_status@),
        Some("WorkPlan status is "@ + f.work_plan_status@),
        Some(match f.pipeline_evidence_error {
            Some(m) => m@,
            None => "PipelineRun evidence is satisfied and matches the executed PipelineRun"@,
        }),
        Some(spec_target_summary(f)),
    ] + (if spec_production_impacting(f) {
        seq![Some(if f.rollback_ready {
            "Production baseline and digest-bound RollbackIntent are present"@
        } else {
            "Production Argo execution requires a captured baseline and prepared RollbackIntent"@
        })]
    } else {
        Seq::empty()
    }) + seq![Some(spec_merge_summary(f)), spec_contract_summary(f.contracts@)]
}

pub open spec fn spec_gate_summary(kind: Seq<char>, gate: Option<ApprovalGateRef>) -> Seq<char> {
    match gate {
        Some(g) => "Scoped "@ + kind + " gate "@ + g.id@ + " is "@ + g.status@,
        None => "Required scoped WorkItem "@ + kind + " gate is missing"@,
    }
}

pub open spec fn spec_gate_texts(f: DeploymentPreflightFacts, n: nat) -> Seq<Seq<char>> {
    let kinds = spec_deployment_gate_kinds(spec_production_impacting(f));
    Seq::new(n, |i: int| spec_gate_summary(kinds[i], f.gates@[i]))
}

pub open spec fn spec_gate_summaries(f: DeploymentPreflightFacts, n: nat) -> Seq<Option<Seq<char>>> {
    let kinds = spec_deployment_gate_kinds(spec_production_impacting(f));
    Seq::new(n, |i: int| Some(spec_gate_summary(kinds[i], f.gates@[i])))
}

/// The summary of every check, in order, where it is determined here.
pub open spec fn spec_deployment_summaries(f: DeploymentPreflightFacts) -> Seq<Option<Seq<char>>> {
    spec_leading_summaries(f) + spec_gate_summaries(f, spec_deployment_gate_kinds(spec_production_impacting(f)).len())
        + seq![Some(match f.grant_id {
        Some(g) => "Active supervised-autonomy grant "@ + g@ + " matches the DeploymentIntent"@,
        None => "No active supervised-autonomy grant matches this DeploymentIntent"@,
    })]
}

/// The checks carry the expected summaries wherever one is determined.
pub open spec fn summaries_as(s: Seq<ExecutionCheck>, expected: Seq<Option<Seq<char>>>) -> bool {
    &&& s.len() == expected.len()
    &&& forall|i: int| 0 <= i < s.len() ==> (#[trigger] expected[i] matches Some(t) ==> s[i].summary@ == t)
}

pub open spec fn summaries(s: Seq<ExecutionCheck>) -> Seq<Seq<char>> {
    s.map_values(|c: ExecutionCheck| c.summary@)
}

pub open spec fn check_outcome(c: ExecutionCheck) -> (Seq<char>, bool) {
    (c.code@, c.passed)
}

pub open spec fn all_checks_passed(s: Seq<ExecutionCheck>) -> bool {
    forall|i: int| 0 <= i < s.len() ==> #[trigger] s[i].passed
}

pub open spec fn outcomes(s: Seq<ExecutionCheck>) -> Seq<(Seq<char>, bool)> {
    s.map_values(|c: ExecutionCheck| check_outcome(c))
}

fn push_check(checks: &mut Vec<ExecutionCheck>, code: &str, passed: bool, summary: String)
    ensures
        final(checks)@.len() == old(checks)@.len() + 1,
        forall|i: int| 0 <= i < old(checks)@.len() ==> #[trigger] final(checks)@[i] == old(checks)@[i],
        check_view(final(checks)@[old(checks)@.len() as int]) == (code@, passed, summary@),
        outcomes(final(checks)@) == outcomes(old(checks)@).push((code@, passed)),
        summaries(final(checks)@) == summaries(old(checks)@).push(summary@),
{
    let ghost before = checks@;
    let ghost text = summary@;
    checks.push(execution_check(code, passed, summary));
    proof {
        assert(outcomes(checks@) =~= outcomes(before).push((code@, passed)));
        assert(summaries(checks@) =~= summaries(before).push(text));
    }
}

fn contract_check(contracts: &Vec<StoredDeploymentContract>) -> (r: (bool, String))
    ensures
        r.0 == spec_contract_ready(contracts@),
        spec_contract_summary(contracts@) matches Some(t) ==> r.1@ == t,
{
    if contracts.len() == 0 {
        return (false, String::from_str("No active DeploymentContract exactly matches the deployment target"));
    }
    if contracts.len() > 1 {
        return (
            false,
            String::from_str(
                "Multiple active DeploymentContracts match the target; retire the older contract",
            ),
        );
    }
    let c = &contracts[0];
    match deployment_contract_spec(&c.contract_json) {
        Err(e) => (false, e.message),
        Ok(spec) => {
            proof {
                assert forall|other: DeploymentContractSpec|
                    spec_contract_matches(other, c.contract_json@) implies spec_contract_valid(other)
                        == spec_contract_valid(spec) && spec_protected_contract(other)
                        == spec_protected_contract(spec) by {}
            }
            match validate_deployment_contract_spec(&spec) {
                Err(e) => (false, e.message),
                Ok(()) => {
                    if str_eq(c.target_environment.as_str(), "production") {
                        match validate_protected_production_deployment_contract(&spec) {
                            Err(e) => {
                                return (false, e.message);
                            },
                            Ok(()) => {},
                        }
                    }
                    (
                        true,
                        String::from_str("Active DeploymentContract ").concat(c.id.as_str()).concat(
                            " version ",
                        ).concat(c.version.as_str()).concat(" exactly matches target"),
                    )
                },
            }
        },
    }
}

fn target_check(facts: &DeploymentPreflightFacts) -> (r: (bool, String))
    ensures
        r.0 == spec_target_ok(*facts),
        r.1@ == spec_target_summary(*facts),
{
    match (&facts.work_item, &facts.target) {
        (None, _) => (false, String::from_str("Argo preflight requires a WorkItem-backed delivery chain")),
        (_, None) => (
            false,
            String::from_str(
                "DeploymentIntent needs target environment, namespace, and Argo application",
            ),
        ),
        (Some(w), Some(t)) => match ensure_supported_deployment_target(
            w,
            facts.work_item_target_supported,
            t,
        ) {
            Err(e) => (false, e.message),
            Ok(()) => (
                true,
                String::from_str(
                    "DeploymentIntent exactly matches a supported dev or protected-production WorkItem target",
                ),
            ),
        },
    }
}

fn merge_check(facts: &DeploymentPreflightFacts) -> (r: (bool, String))
    ensures
        r.0 == spec_merge_ok(*facts),
        r.1@ == spec_merge_summary(*facts),
{
    match &facts.work_item {
        None => (false, String::from_str("Argo preflight requires a WorkItem-backed delivery chain")),
        Some(_) => match &facts.gitops_merge {
            GitOpsMergeObservation::Merged { artifact_id, merge_commit_sha } => {
                let sha = match merge_commit_sha {
                    Some(s) => s.as_str(),
                    None => "unknown",
                };
                (
                    true,
                    String::from_str("GitOps merge artifact ").concat(artifact_id.as_str()).concat(
                        " records immutable revision ",
                    ).concat(sha),
                )
            },
            GitOpsMergeObservation::NotRequired => (
                true,
                String::from_str(
                    "WorkItem does not declare a GitOps repository/ref; no GitOps merge is required",
                ),
            ),
            GitOpsMergeObservation::Unavailable(m) => (false, m.clone()),
        },
    }
}

#[verifier::rlimit(50)]
fn leading_checks(facts: &DeploymentPreflightFacts) -> (checks: Vec<ExecutionCheck>)
    ensures
        outcomes(checks@) == spec_leading_checks(*facts),
        summaries_as(checks@, spec_leading_summaries(*facts)),
        checks@.len() >= 1,
        check_view(checks@[0]) == (
            "deployment_intent_approved"@,
            facts.intent_status@ == "approved"@,
            "DeploymentIntent status is "@ + facts.intent_status@,
        ),
{
    let mut checks: Vec<ExecutionCheck> = Vec::new();
    proof {
        assert(outcomes(checks@) =~= Seq::empty());
        assert(summaries(checks@) =~= Seq::empty());
    }
    push_check(
        &mut checks,
        "deployment_intent_approved",
        str_eq(facts.intent_status.as_str(), "approved"),
        String::from_str("DeploymentIntent status is ").concat(facts.intent_status.as_str()),
    );
    push_check(
        &mut checks,
        "pipeline_intent_approved",
        str_eq(facts.pipeline_intent_status.as_str(), "approved"),
        String::from_str("PipelineIntent status is ").concat(facts.pipeline_intent_status.as_str()),
    );
    push_check(
        &mut checks,
        "change_set_approved",
        str_eq(facts.change_set_status.as_str(), "approved"),
        String::from_str("ChangeSet status is ").concat(facts.change_set_status.as_str()),
    );
    push_check(
        &mut checks,
        "work_plan_approved",
        str_eq(facts.work_plan_status.as_str(), "approved"),
        String::from_str("WorkPlan status is ").concat(facts.work_plan_status.as_str()),
    );
    let evidence_summary = match &facts.pipeline_evidence_error {
        Some(m) => m.clone(),
        None => String::from_str(
            "PipelineRun evidence is satisfied and matches the executed PipelineRun",
        ),
    };
    push_check(
        &mut checks,
        "pipeline_evidence_ready",
        facts.pipeline_evidence_error.is_none(),
        evidence_summary,
    );
    let (target_ok, target_summary) = target_check(facts);
    push_check(&mut checks, "supported_work_item_target", target_ok, target_summary);
    let ghost six = outcomes(checks@);
    let ghost six_s = summaries(checks@);
    let production = match &facts.work_item {
        Some(w) => w.production_impacting,
        None => false,
    };
    if production {
        let summary = if facts.rollback_ready {
            String::from_str("Production baseline and digest-bound RollbackIntent are present")
        } else {
            String::from_str(
                "Production Argo execution requires a captured baseline and prepared RollbackIntent",
            )
        };
        push_check(&mut checks, "production_baseline_and_rollback", facts.rollback_ready, summary);
    }
    let ghost seven = outcomes(checks@);
    let ghost seven_s = summaries(checks@);
    let (merge_ok, merge_summary) = merge_check(facts);
    push_check(&mut checks, "gitops_revision_merged", merge_ok, merge_summary);
    let (contract_ok, contract_summary) = contract_check(&facts.contracts);
    push_check(&mut checks, "active_deployment_contract", contract_ok, contract_summary);
    proof {
        assert(six =~= seq![
            ("deployment_intent_approved"@, facts.intent_status@ == "approved"@),
            ("pipeline_intent_approved"@, facts.pipeline_intent_status@ == "approved"@),
            ("change_set_approved"@, facts.change_set_status@ == "approved"@),
            ("work_plan_approved"@, facts.work_plan_status@ == "approved"@),
            ("pipeline_evidence_ready"@, facts.pipeline_evidence_error is None),
            ("supported_work_item_target"@, spec_target_ok(*facts)),
        ]);
        assert(seven =~= six + (if spec_production_impacting(*facts) {
            seq![("production_baseline_and_rollback"@, facts.rollback_ready)]
        } else {
            Seq::empty()
        }));
        assert(outcomes(checks@) =~= spec_leading_checks(*facts));
        let e = spec_leading_summaries(*facts);
        assert(e.len() == checks@.len());
        assert forall|i: int| 0 <= i < checks@.len() implies (#[trigger] e[i] matches Some(t) ==> checks@[i].summary@ == t) by {
            assert(summaries(checks@)[i] == checks@[i].summary@);
            if i < 6 {
                assert(six_s[i] == summaries(checks@)[i]);
            } else if i < seven_s.len() {
                assert(seven_s[i] == summaries(checks@)[i]);
            }
        }
    }
    checks
}

fn push_gate_checks(checks: &mut Vec<ExecutionCheck>, facts: &DeploymentPreflightFacts)
    requires
        facts.gates@.len() == spec_deployment_gate_kinds(spec_production_impacting(*facts)).len(),
        old(checks)@.len() >= 1,
    ensures
        final(checks)@[0] == old(checks)@[0],
        outcomes(final(checks)@) == outcomes(old(checks)@) + spec_gate_checks(
            *facts,
            spec_deployment_gate_kinds(spec_production_impacting(*facts)).len(),
        ),
        summaries(final(checks)@) == summaries(old(checks)@) + spec_gate_texts(
            *facts,
            spec_deployment_gate_kinds(spec_production_impacting(*facts)).len(),
        ),
{
    let production = match &facts.work_item {
        Some(w) => w.production_impacting,
        None => false,
    };
    let ghost base = outcomes(checks@);
    let ghost base_s = summaries(checks@);
    let ghost first = checks@[0];
    let kinds = deployment_gate_kinds(production);
    proof {
        assert(spec_gate_checks(*facts, 0) =~= Seq::<(Seq<char>, bool)>::empty());
        assert(base + Seq::<(Seq<char>, bool)>::empty() =~= base);
        assert(spec_gate_texts(*facts, 0) =~= Seq::<Seq<char>>::empty());
        assert(base_s + Seq::<Seq<char>>::empty() =~= base_s);
    }
    let mut k: usize = 0;
    while k < kinds.len()
        invariant
            kinds@.map_values(|x: &str| x@) == spec_deployment_gate_kinds(production),
            production == spec_production_impacting(*facts),
            facts.gates@.len() == kinds@.len(),
            k <= kinds@.len(),
            checks@.len() >= 1,
            checks@[0] == first,
            outcomes(checks@) == base + spec_gate_checks(*facts, k as nat),
            summaries(checks@) == base_s + spec_gate_texts(*facts, k as nat),
        decreases kinds@.len() - k,
    {
        let kind = kinds[k];
        proof {
            assert(kinds@.map_values(|x: &str| x@)[k as int] == kind@);
        }
        let (ready, summary) = match &facts.gates[k] {
            Some(g) => (
                str_eq(g.status.as_str(), "satisfied") || str_eq(g.status.as_str(), "waived"),
                String::from_str("Scoped ").concat(kind).concat(" gate ").concat(g.id.as_str()).concat(
                    " is ",
                ).concat(g.status.as_str()),
            ),
            None => (
                false,
                String::from_str("Required scoped WorkItem ").concat(kind).concat(" gate is missing"),
            ),
        };
        let code = String::from_str("approval_gate_").concat(kind);
        push_check(checks, code.as_str(), ready, summary);
        proof {
            assert(spec_gate_checks(*facts, (k + 1) as nat) =~= spec_gate_checks(*facts, k as nat).push(
                ("approval_gate_"@ + kind@, spec_gate_ready(facts.gates@[k as int])),
            ));
            assert(base + spec_gate_checks(*facts, (k + 1) as nat) =~= (base + spec_gate_checks(
                *facts,
                k as nat,
            )).push(("approval_gate_"@ + kind@, spec_gate_ready(facts.gates@[k as int]))));
            assert(spec_gate_texts(*facts, (k + 1) as nat) =~= spec_gate_texts(*facts, k as nat).push(
                spec_gate_summary(kind@, facts.gates@[k as int]),
            ));
            assert(base_s + spec_gate_texts(*facts, (k + 1) as nat) =~= (base_s + spec_gate_texts(*facts, k as nat)).push(
                spec_gate_summary(kind@, facts.gates@[k as int]),
            ));
        }
        k = k + 1;
    }
}

/// A deployment preflight is ready only when every requirement it checks
/// holds: the DeploymentIntent, PipelineIntent, ChangeSet and WorkPlan are
/// approved; the pipeline evidence is ready; the intent's target is its
/// WorkItem's own (same environment, namespace and Argo application); a
/// production-impacting WorkItem has its rollback prepared; the GitOps merge
/// is observed or not required; exactly one contract is active; every
/// required approval gate is satisfied or waived; and a grant matches.
pub proof fn lemma_ready_deployment_meets_every_requirement(f: DeploymentPreflightFacts, checks: Seq<ExecutionCheck>)
    requires
        outcomes(checks) == spec_deployment_checks(f),
        all_checks_passed(checks),
    ensures
        f.intent_status@ == "approved"@,
        f.pipeline_intent_status@ == "approved"@,
        f.change_set_status@ == "approved"@,
        f.work_plan_status@ == "approved"@,
        f.pipeline_evidence_error is None,
        f.work_item_target_supported,
        f.work_item is Some && f.target is Some,
        f.target->0.environment@ == f.work_item->0.target_environment@,
        f.work_item->0.target_namespace is Some && f.work_item->0.target_namespace->0@ == f.target->0.namespace@,
        f.work_item->0.argo_application is Some && f.work_item->0.argo_application->0@ == f.target->0.application@,
        f.work_item->0.production_impacting ==> f.rollback_ready,
        !(f.gitops_merge is Unavailable),
        f.contracts@.len() == 1,
        forall|i: int| 0 <= i < spec_deployment_gate_kinds(spec_production_impacting(f)).len() ==> (#[trigger] f.gates@[i] matches Some(g)
            && (g.status@ == "satisfied"@ || g.status@ == "waived"@)),
        f.grant_id is Some,
{
    let all = spec_deployment_checks(f);
    let lead = spec_leading_checks(f);
    let n = spec_deployment_gate_kinds(spec_production_impacting(f)).len();
    let gates = spec_gate_checks(f, n);
    assert(all == lead + gates + seq![("trusted_execution_envelope"@, f.grant_id is Some)]);
    assert forall|i: int| 0 <= i < all.len() implies (#[trigger] all[i]).1 by {
        assert(outcomes(checks)[i] == check_outcome(checks[i]));
        assert(checks[i].passed);
    }
    assert(all[0] == lead[0]);
    assert(all[1] == lead[1]);
    assert(all[2] == lead[2]);
    assert(all[3] == lead[3]);
    assert(all[4] == lead[4]);
    assert(all[5] == lead[5]);
    assert(all[0].1 && all[1].1 && all[2].1 && all[3].1 && all[4].1 && all[5].1);
    if spec_production_impacting(f) {
        assert(all[6] == lead[6]);
        assert(all[6].1);
        assert(all[7] == lead[7]);
        assert(all[7].1);
        assert(all[8] == lead[8]);
        assert(all[8].1);
    } else {
        assert(all[6] == lead[6]);
        assert(all[6].1);
        assert(all[7] == lead[7]);
        assert(all[7].1);
    }
    assert forall|i: int| 0 <= i < n implies (#[trigger] f.gates@[i] matches Some(g)
        && (g.status@ == "satisfied"@ || g.status@ == "waived"@)) by {
        assert(all[lead.len() + i] == gates[i]);
        assert(all[lead.len() + i].1);
    }
    assert(all[all.len() - 1].1);
}

/// Decide an Argo CD execution preflight: every check with its outcome, and
/// readiness exactly when all of them passed.
pub fn deployment_execution_checks(facts: &DeploymentPreflightFacts) -> (r: (Vec<ExecutionCheck>, bool))
    requires
        facts.gates@.len() == spec_deployment_gate_kinds(spec_production_impacting(*facts)).len(),
    ensures
        outcomes(r.0@) == spec_deployment_checks(*facts),
        summaries_as(r.0@, spec_deployment_summaries(*facts)),
        r.1 == all_checks_passed(r.0@),
        r.1 ==> {
            &&& facts.intent_status@ == "approved"@ && facts.pipeline_intent_status@ == "approved"@
            &&& facts.change_set_status@ == "approved"@ && facts.work_plan_status@ == "approved"@
            &&& facts.pipeline_evidence_error is None && facts.work_item_target_supported
            &&& facts.work_item is Some && facts.target is Some
            &&& facts.work_item->0.argo_application is Some
            &&& facts.work_item->0.argo_application->0@ == facts.target->0.application@
            &&& facts.grant_id is Some
        },
        check_view(r.0@[0]) == (
            "deployment_intent_approved"@,
            facts.intent_status@ == "approved"@,
            "DeploymentIntent status is "@ + facts.intent_status@,
        ),
{
    let mut checks = leading_checks(facts);
    let ghost lead = outcomes(checks@);
    let ghost lead_s = checks@;
    push_gate_checks(&mut checks, facts);
    let grant_summary = match &facts.grant_id {
        Some(g) => String::from_str("Active supervised-autonomy grant ").concat(g.as_str()).concat(
            " matches the DeploymentIntent",
        ),
        None => String::from_str("No active supervised-autonomy grant matches this DeploymentIntent"),
    };
    let ghost lead_checks = checks@;
    push_check(&mut checks, "trusted_execution_envelope", facts.grant_id.is_some(), grant_summary);
    proof {
        assert(outcomes(checks@) =~= spec_deployment_checks(*facts));
        let e = spec_deployment_summaries(*facts);
        let ls = spec_leading_summaries(*facts);
        let n = spec_deployment_gate_kinds(spec_production_impacting(*facts)).len();
        assert(e.len() == checks@.len());
        assert forall|i: int| 0 <= i < checks@.len() implies (#[trigger] e[i] matches Some(t) ==> checks@[i].summary@ == t) by {
            assert(summaries(checks@)[i] == checks@[i].summary@);
            if i < ls.len() {
                assert(e[i] == ls[i]);
                assert(summaries(lead_checks)[i] == summaries(checks@)[i]);
                assert(summaries(lead_s)[i] == summaries(lead_checks)[i]);
                assert(summaries(lead_s)[i] == lead_s[i].summary@);
            } else if i < ls.len() + n {
                assert(e[i] == spec_gate_summaries(*facts, n)[i - ls.len()]);
                assert(summaries(lead_checks)[i] == summaries(checks@)[i]);
                assert(summaries(lead_checks)[i] == spec_gate_texts(*facts, n)[i - ls.len()]);
            }
        }
    }
    let mut ready = true;
    let mut i: usize = 0;
    while i < checks.len()
        invariant
            i <= checks@.len(),
            ready == (forall|j: int| 0 <= j < i ==> #[trigger] checks@[j].passed),
        decreases checks@.len() - i,
    {
        if !checks[i].passed {
            ready = false;
        }
        i = i + 1;
    }
    assert(ready == all_checks_passed(checks@));
    proof {
        if ready {
            lemma_ready_deployment_meets_every_requirement(*facts, checks@);
        }
    }
    (checks, ready)
}

/// What an Argo execution request does after its preflight.
pub enum ArgoExecutionStep {
    /// Report readiness without dispatching.
    Report { status: String, ready: bool },
    /// Dispatch the Argo sync runner for the given reason.
    Dispatch { reason: String },
}

/// A request dispatches only when it is not a dry run and both the
/// preflight and the executor are ready; then it needs a reason.
pub fn argo_execution_step(
    preflight_ready: bool,
    dispatch_ready: bool,
    dry_run: bool,
    reason: Option<String>,
) -> (r: Result<ArgoExecutionStep, ApiError>)
    ensures
        (dry_run || !preflight_ready || !dispatch_ready) ==> (r matches Ok(
            ArgoExecutionStep::Report { status, ready },
        ) && ready == (preflight_ready && dispatch_ready) && status@ == if preflight_ready
            && dispatch_ready {
            "ready"@
        } else {
            "blocked"@
        }),
        !(dry_run || !preflight_ready || !dispatch_ready) ==> match r {
            Ok(ArgoExecutionStep::Dispatch { reason: x }) => spec_clean_optional_text(option_view(reason)) == Some(x@),
            Ok(_) => false,
            Err(e) => spec_clean_optional_text(option_view(reason)) is None && e.kind == ErrorKind::BadRequest,
        },
{
    if dry_run || !preflight_ready || !dispatch_ready {
        let both = preflight_ready && dispatch_ready;
        let status = if both {
            String::from_str("ready")
        } else {
            String::from_str("blocked")
        };
        return Ok(ArgoExecutionStep::Report { status, ready: both });
    }
    match clean_optional_text(reason) {
        Some(r) => Ok(ArgoExecutionStep::Dispatch { reason: r }),
        None => Err(ApiError::bad_request("Argo sync execution reason is required")),
    }
}

/// An Argo sync execution recorded for exactly this intent, contract, grant
/// and observed GitOps merge.
pub open spec fn spec_argo_execution_matches(
    a: StoredArtifact,
    intent_id: Seq<char>,
    contract_id: Seq<char>,
    grant_id: Seq<char>,
    merge_artifact_id: Option<Seq<char>>,
) -> bool {
    &&& a.kind@ == "argo_sync_execution"@
    &&& content_view(a) matches Some(c) && {
        &&& str_member(c, "deployment_intent_id"@) == Some(intent_id)
        &&& str_member(c, "deployment_contract_id"@) == Some(contract_id)
        &&& str_member(c, "permission_grant_id"@) == Some(grant_id)
        &&& str_member(c, "gitops_delivery_merge_artifact_id"@) == merge_artifact_id
    }
}


pub fn argo_sync_execution_matches(
    artifact: &StoredArtifact,
    intent_id: &str,
    contract_id: &str,
    grant_id: &str,
    merge_artifact_id: Option<&str>,
) -> (r: bool)
    ensures
        r == spec_argo_execution_matches(*artifact, intent_id@, contract_id@, grant_id@, opt_str_view(merge_artifact_id)),
{
    if !str_eq(artifact.kind.as_str(), "argo_sync_execution") {
        return false;
    }
    match &artifact.content_json {
        Some(c) => {
            let merge_matches = match (json_get_str(c, "gitops_delivery_merge_artifact_id"), merge_artifact_id) {
                (Some(a), Some(b)) => str_eq(a, b),
                (None, None) => true,
                _ => false,
            };
            crate::json::str_member_is(c, "deployment_intent_id", intent_id)
                && crate::json::str_member_is(c, "deployment_contract_id", contract_id)
                && crate::json::str_member_is(c, "permission_grant_id", grant_id) && merge_matches
        },
        None => false,
    }
}

/// An Argo sync execution of this intent, optionally with this execution id.
pub open spec fn spec_intent_execution(a: StoredArtifact, intent_id: Seq<char>, execution_id: Option<Seq<char>>) -> bool {
    &&& a.kind@ == "argo_sync_execution"@
    &&& content_view(a) matches Some(c) && {
        &&& str_member(c, "deployment_intent_id"@) == Some(intent_id)
        &&& match execution_id {
            Some(x) => str_member(c, "execution_id"@) == Some(x),
            None => true,
        }
    }
}

pub open spec fn intent_execution_flags(arts: Seq<StoredArtifact>, intent_id: Seq<char>, execution_id: Option<Seq<char>>) -> Seq<bool> {
    Seq::new(arts.len(), |i: int| spec_intent_execution(arts[i], intent_id, execution_id))
}

fn intent_execution_flag_vec(artifacts: &Vec<StoredArtifact>, intent_id: &str, execution_id: Option<&str>) -> (r: Vec<bool>)
    ensures
        r@ == intent_execution_flags(artifacts@, intent_id@, opt_str_view(execution_id)),
{
    let mut flags: Vec<bool> = Vec::new();
    let mut i: usize = 0;
    while i < artifacts.len()
        invariant
            i <= artifacts@.len(),
            flags@.len() == i,
            forall|j: int| 0 <= j < i ==> #[trigger] flags@[j] == spec_intent_execution(artifacts@[j], intent_id@, opt_str_view(execution_id)),
        decreases artifacts@.len() - i,
    {
        let a = &artifacts[i];
        let m = str_eq(a.kind.as_str(), "argo_sync_execution") && match &a.content_json {
            Some(c) => crate::json::str_member_is(c, "deployment_intent_id", intent_id) && match execution_id {
                Some(x) => crate::json::str_member_is(c, "execution_id", x),
                None => true,
            },
            None => false,
        };
        flags.push(m);
        i = i + 1;
    }
    proof {
        assert(flags@ =~= intent_execution_flags(artifacts@, intent_id@, opt_str_view(execution_id)));
    }
    flags
}

/// The Argo sync execution a runner reports on: the latest execution with
/// the given id, which must also be the latest execution of the intent.
pub fn current_argo_sync_execution<'a>(
    artifacts: &'a Vec<StoredArtifact>,
    intent_id: &str,
    execution_id: &str,
) -> (r: Result<&'a StoredArtifact, ApiError>)
    ensures
        r is Ok <==> (latest_of(artifacts@, intent_execution_flags(artifacts@, intent_id@, Some(execution_id@))) matches Some(e)
            && latest_of(artifacts@, intent_execution_flags(artifacts@, intent_id@, None)) matches Some(l)
            && artifacts@[l].id@ == artifacts@[e].id@),
        r matches Ok(a) ==> Some(*a) == match latest_of(artifacts@, intent_execution_flags(artifacts@, intent_id@, Some(execution_id@))) {
            Some(e) => Some(artifacts@[e]),
            None => None,
        },
        r matches Err(e) ==> e.kind == ErrorKind::Conflict && e.message@ == if latest_of(
            artifacts@,
            intent_execution_flags(artifacts@, intent_id@, Some(execution_id@)),
        ) is None {
            "Argo sync execution is unavailable"@
        } else {
            "Argo sync execution is no longer current for this DeploymentIntent"@
        },
{
    let ef = intent_execution_flag_vec(artifacts, intent_id, Some(execution_id));
    let e = match latest_matching(artifacts, &ef) {
        Some(e) => e,
        None => {
            return Err(ApiError::conflict("Argo sync execution is unavailable"));
        },
    };
    let lf = intent_execution_flag_vec(artifacts, intent_id, None);
    let same = match latest_matching(artifacts, &lf) {
        Some(l) => str_eq(artifacts[l].id.as_str(), artifacts[e].id.as_str()),
        None => false,
    };
    if !same {
        return Err(ApiError::conflict("Argo sync execution is no longer current for this DeploymentIntent"));
    }
    Ok(&artifacts[e])
}

} // verus!
