//! What hosted work requires of its server-owned configuration: a delivery
//! binding that still matches the registered repository, GitOps executors
//! allowed on its delivery repository, exact staging and production
//! contracts, and a passing qualification for every agent stage.
use vstd::prelude::*;
use crate::deployment::{DeploymentContractSpec, VerificationRequirement};
use crate::error::{ApiError, ErrorKind};
use crate::gitops_delivery::{contains_text, seq_contains_text};
use crate::text::{opt_text, str_eq};

verus! {

/// A hosted DeploymentContract names an exact Deployment and Service with a
/// port and a required health probe on an absolute path.
pub open spec fn spec_hosted_contract_ok(spec: DeploymentContractSpec) -> bool {
    &&& opt_text(spec.workload_kind) == Some("Deployment"@)
    &&& spec.workload_name matches Some(n) && n@.len() > 0
    &&& spec.service_name matches Some(n) && n@.len() > 0
    &&& spec.service_port is Some
    &&& spec.post_sync_verification.service_healthz is Required
    &&& spec.health_path matches Some(p) && p@.len() > 0 && p@[0] == '/'
}

pub fn ensure_hosted_deployment_contract(spec: &DeploymentContractSpec) -> (r: Result<(), ApiError>)
    ensures
        r is Ok <==> spec_hosted_contract_ok(*spec),
        r matches Err(e) ==> e.kind == ErrorKind::Conflict
            && e.message@ == "hosted DeploymentContracts require an exact Deployment, Service, port, and required health probe"@,
{
    let kind_ok = match &spec.workload_kind {
        Some(k) => str_eq(k.as_str(), "Deployment"),
        None => false,
    };
    let workload_ok = match &spec.workload_name {
        Some(n) => n.unicode_len() > 0,
        None => false,
    };
    let service_ok = match &spec.service_name {
        Some(n) => n.unicode_len() > 0,
        None => false,
    };
    let healthz_required = match spec.post_sync_verification.service_healthz {
        VerificationRequirement::Required => true,
        VerificationRequirement::Disabled => false,
    };
    let path_ok = match &spec.health_path {
        Some(p) => p.unicode_len() > 0 && p.get_char(0) == '/',
        None => false,
    };
    if !kind_ok || !workload_ok || !service_ok || spec.service_port.is_none() || !healthz_required || !path_ok {
        return Err(ApiError::conflict("hosted DeploymentContracts require an exact Deployment, Service, port, and required health probe"));
    }
    Ok(())
}

/// A Product/Repository delivery binding, as far as hosted work checks it.
pub struct DeliveryBinding {
    pub product_id: String,
    pub repository_id: String,
    pub source_repo: String,
    pub source_ref: String,
    pub gitops_repo: String,
}

/// Index of the first binding of the Product/Repository pair.
pub open spec fn first_binding(bindings: Seq<DeliveryBinding>, product_id: Seq<char>, repository_id: Seq<char>) -> Option<int>
    decreases bindings.len(),
{
    if bindings.len() == 0 {
        None
    } else if bindings[0].product_id@ == product_id && bindings[0].repository_id@ == repository_id {
        Some(0)
    } else {
        match first_binding(bindings.drop_first(), product_id, repository_id) {
            Some(i) => Some(i + 1),
            None => None,
        }
    }
}

/// The binding hosted work on this Product/Repository is delivered through,
/// or why it cannot be: no binding, a binding that no longer matches the
/// registered repository, or GitOps executors not both allowed on it.
pub open spec fn spec_hosted_binding(
    bindings: Seq<DeliveryBinding>,
    product_id: Seq<char>,
    repository_id: Seq<char>,
    canonical_url: Seq<char>,
    default_branch: Seq<char>,
    writer_repos: Option<Seq<String>>,
    observer_repos: Option<Seq<String>>,
) -> Result<int, Seq<char>> {
    match first_binding(bindings, product_id, repository_id) {
        None => Err("this Product/Repository has no hosted delivery binding"@),
        Some(i) => if bindings[i].source_repo@ != canonical_url || bindings[i].source_ref@ != default_branch {
            Err("the hosted delivery binding no longer matches the registered repository"@)
        } else if !(writer_repos matches Some(w) && seq_contains_text(w, bindings[i].gitops_repo@))
            || !(observer_repos matches Some(o) && seq_contains_text(o, bindings[i].gitops_repo@)) {
            Err("the separately authorized GitOps writer and observer do not allow this delivery repository"@)
        } else {
            Ok(i)
        },
    }
}

pub open spec fn opt_vec_view(v: Option<&Vec<String>>) -> Option<Seq<String>> {
    match v {
        Some(x) => Some(x@),
        None => None,
    }
}

/// The delivery binding of hosted work on this Product/Repository.
pub fn hosted_binding(
    bindings: &Vec<DeliveryBinding>,
    product_id: &str,
    repository_id: &str,
    canonical_url: &str,
    default_branch: &str,
    writer_repos: Option<&Vec<String>>,
    observer_repos: Option<&Vec<String>>,
) -> (r: Result<usize, ApiError>)
    ensures
        match r {
            Ok(i) => spec_hosted_binding(bindings@, product_id@, repository_id@, canonical_url@, default_branch@, opt_vec_view(writer_repos), opt_vec_view(observer_repos))
                == Ok::<int, Seq<char>>(i as int),
            Err(e) => e.kind == ErrorKind::Conflict && spec_hosted_binding(bindings@, product_id@, repository_id@, canonical_url@, default_branch@, opt_vec_view(writer_repos), opt_vec_view(observer_repos))
                == Err::<int, Seq<char>>(e.message@),
        },
{
    let n = bindings.len();
    let mut i: usize = 0;
    proof {
        assert(bindings@.subrange(0, n as int) =~= bindings@);
    }
    while i < n
        invariant
            n == bindings@.len(),
            i <= n,
            first_binding(bindings@, product_id@, repository_id@) == match first_binding(bindings@.subrange(i as int, n as int), product_id@, repository_id@) {
                Some(t) => Some(t + i),
                None => None::<int>,
            },
        ensures
            i <= n,
            first_binding(bindings@, product_id@, repository_id@) == match first_binding(bindings@.subrange(i as int, n as int), product_id@, repository_id@) {
                Some(t) => Some(t + i),
                None => None::<int>,
            },
            i < n ==> bindings@[i as int].product_id@ == product_id@ && bindings@[i as int].repository_id@ == repository_id@,
        decreases n - i,
    {
        let ghost rest = bindings@.subrange(i as int, n as int);
        proof {
            assert(rest[0] == bindings@[i as int]);
            assert(rest.drop_first() =~= bindings@.subrange(i + 1, n as int));
        }
        if str_eq(bindings[i].product_id.as_str(), product_id) && str_eq(bindings[i].repository_id.as_str(), repository_id) {
            break;
        }
        i = i + 1;
    }
    if i == n {
        proof {
            assert(bindings@.subrange(n as int, n as int) =~= Seq::<DeliveryBinding>::empty());
        }
        return Err(ApiError::conflict("this Product/Repository has no hosted delivery binding"));
    }
    proof {
        let rest = bindings@.subrange(i as int, n as int);
        assert(rest[0] == bindings@[i as int]);
        assert(first_binding(bindings@, product_id@, repository_id@) == Some(i as int));
    }
    let b = &bindings[i];
    if !str_eq(b.source_repo.as_str(), canonical_url) || !str_eq(b.source_ref.as_str(), default_branch) {
        return Err(ApiError::conflict("the hosted delivery binding no longer matches the registered repository"));
    }
    let writer_ok = match writer_repos {
        Some(w) => contains_text(w, b.gitops_repo.as_str()),
        None => false,
    };
    let observer_ok = match observer_repos {
        Some(o) => contains_text(o, b.gitops_repo.as_str()),
        None => false,
    };
    if !writer_ok || !observer_ok {
        return Err(ApiError::conflict("the separately authorized GitOps writer and observer do not allow this delivery repository"));
    }
    Ok(i)
}

/// A recorded qualification of an inference policy for one agent profile.
pub struct PolicyQualification {
    pub agent_profile_id: String,
    pub verdict: String,
    pub runtime_revision: String,
    pub suite_id: String,
    pub suite_hash: String,
    pub attempts: u32,
    pub policy_hash: String,
    pub target_hash: String,
    pub agent_profile_hash: String,
}

/// What a live stage's qualification must match.
pub struct StageQualificationTarget {
    pub profile_id: String,
    pub runtime_revision: String,
    pub suite_id: String,
    pub suite_hash: String,
    /// The live selection's policy and target hashes, when it names them.
    pub selection_policy_hash: Option<String>,
    pub selection_target_hash: Option<String>,
    pub agent_profile_hash: String,
}

/// The qualification passed for this runtime, frozen suite and policy; the
/// builder and repair profiles must have qualified over two attempts.
pub open spec fn spec_qualification_matches(q: PolicyQualification, t: StageQualificationTarget) -> bool {
    &&& q.verdict@ == "passed"@
    &&& q.runtime_revision@ == t.runtime_revision@
    &&& q.suite_id@ == t.suite_id@
    &&& q.suite_hash@ == t.suite_hash@
    &&& ((t.profile_id@ == "repo-builder"@ || t.profile_id@ == "repo-repair"@) ==> q.attempts == 2)
    &&& opt_text(t.selection_policy_hash) == Some(q.policy_hash@)
    &&& opt_text(t.selection_target_hash) == Some(q.target_hash@)
    &&& t.agent_profile_hash@ == q.agent_profile_hash@
}

/// Index of the first qualification recorded for the stage's profile.
pub open spec fn first_profile_qualification(qs: Seq<PolicyQualification>, profile_id: Seq<char>) -> Option<int>
    decreases qs.len(),
{
    if qs.len() == 0 {
        None
    } else if qs[0].agent_profile_id@ == profile_id {
        Some(0)
    } else {
        match first_profile_qualification(qs.drop_first(), profile_id) {
            Some(i) => Some(i + 1),
            None => None,
        }
    }
}

fn qualification_matches(q: &PolicyQualification, t: &StageQualificationTarget) -> (r: bool)
    ensures
        r == spec_qualification_matches(*q, *t),
{
    let coding = str_eq(t.profile_id.as_str(), "repo-builder") || str_eq(t.profile_id.as_str(), "repo-repair");
    let policy_ok = match &t.selection_policy_hash {
        Some(h) => str_eq(h.as_str(), q.policy_hash.as_str()),
        None => false,
    };
    let target_ok = match &t.selection_target_hash {
        Some(h) => str_eq(h.as_str(), q.target_hash.as_str()),
        None => false,
    };
    str_eq(q.verdict.as_str(), "passed") && str_eq(q.runtime_revision.as_str(), t.runtime_revision.as_str())
        && str_eq(q.suite_id.as_str(), t.suite_id.as_str()) && str_eq(q.suite_hash.as_str(), t.suite_hash.as_str())
        && (!coding || q.attempts == 2) && policy_ok && target_ok && str_eq(
        t.agent_profile_hash.as_str(),
        q.agent_profile_hash.as_str(),
    )
}

/// The qualification a live stage runs under: the first one recorded for its
/// profile, which must match the stage; otherwise the stage is refused.
pub fn stage_qualification(qualifications: &Vec<PolicyQualification>, stage_key: &str, t: &StageQualificationTarget) -> (r: Result<usize, ApiError>)
    ensures
        match r {
            Ok(i) => first_profile_qualification(qualifications@, t.profile_id@) == Some(i as int)
                && spec_qualification_matches(qualifications@[i as int], *t),
            Err(e) => e.kind == ErrorKind::Conflict && e.message@ == stage_key@
                + " requires a passing gateway qualification for this runtime, frozen suite, and policy"@
                && !(first_profile_qualification(qualifications@, t.profile_id@) matches Some(i)
                && spec_qualification_matches(qualifications@[i], *t)),
        },
{
    let n = qualifications.len();
    let mut i: usize = 0;
    proof {
        assert(qualifications@.subrange(0, n as int) =~= qualifications@);
    }
    while i < n
        invariant
            n == qualifications@.len(),
            i <= n,
            first_profile_qualification(qualifications@, t.profile_id@) == match first_profile_qualification(qualifications@.subrange(i as int, n as int), t.profile_id@) {
                Some(k) => Some(k + i),
                None => None::<int>,
            },
        decreases n - i,
    {
        let ghost rest = qualifications@.subrange(i as int, n as int);
        proof {
            assert(rest[0] == qualifications@[i as int]);
            assert(rest.drop_first() =~= qualifications@.subrange(i + 1, n as int));
        }
        if str_eq(qualifications[i].agent_profile_id.as_str(), t.profile_id.as_str()) {
            if qualification_matches(&qualifications[i], t) {
                return Ok(i);
            }
            let message = String::from_str(stage_key).concat(" requires a passing gateway qualification for this runtime, frozen suite, and policy");
            return Err(ApiError::with_message(ErrorKind::Conflict, message));
        }
        i = i + 1;
    }
    proof {
        assert(qualifications@.subrange(n as int, n as int) =~= Seq::<PolicyQualification>::empty());
    }
    let message = String::from_str(stage_key).concat(" requires a passing gateway qualification for this runtime, frozen suite, and policy");
    Err(ApiError::with_message(ErrorKind::Conflict, message))
}

} // verus!
