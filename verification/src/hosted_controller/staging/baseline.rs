//! Records of the staging baseline collection: artifact identities and the
//! window a baseline is collected in.
use vstd::prelude::*;
use super::artifact_id;
use super::runtime::RuntimeWindow;
use crate::error::{ApiError, ErrorKind};
use crate::text::str_eq;

verus! {

/// The artifact of a baseline collection step of a staging execution.
pub fn id(execution_id: &str, step: &str) -> (r: String)
    ensures
        r@ == "staging_"@ + ("baseline_"@ + step@) + "_"@ + execution_id@,
{
    let kind = String::from_str("baseline_").concat(step);
    artifact_id(kind.as_str(), execution_id)
}

/// The deployment a baseline expects to find in staging.
pub struct DeploymentExpectation {
    /// The serialized name of the Finance application.
    pub application: String,
    pub environment: String,
    pub gitops_commit_sha: String,
    pub image_digest: String,
}

/// The window a staging baseline is collected in and what it expects.
pub struct WindowRecord {
    pub schema_version: String,
    pub authority_hash: String,
    pub plan_hash: String,
    pub created_at_ms: i64,
    pub expected: DeploymentExpectation,
    pub window: RuntimeWindow,
}

/// The Finance application a repository is, if it is a registered one.
pub open spec fn spec_finance_application(repository: Seq<char>) -> Option<Seq<char>> {
    if repository == "https://github.com/lward27/yfinance_wrapper.git"@ {
        Some("yfinance"@)
    } else if repository == "https://github.com/lward27/finance-frontend.git"@ {
        Some("frontend"@)
    } else {
        None
    }
}

/// What a baseline record is derived from.
pub struct BaselineSource {
    pub application_repository: String,
    pub authority_hash: Result<String, String>,
    /// The saved staging plan: its hash and base commit, if there is one.
    pub plan: Option<(Result<String, String>, String)>,
    pub previous_image_digest: Result<String, String>,
}

pub open spec fn text_result(r: Result<String, String>) -> Result<Seq<char>, Seq<char>> {
    match r {
        Ok(s) => Ok(s@),
        Err(e) => Err(e@),
    }
}

/// The baseline record created at `created_at_ms`, whose window (when one
/// fits) is `window`, or the refusal owed.
pub open spec fn spec_window_record(src: BaselineSource, created_at_ms: i64, window: Option<RuntimeWindow>) -> Result<
    (Seq<char>, Seq<char>, Seq<char>, Seq<char>, Seq<char>, RuntimeWindow),
    Seq<char>,
> {
    match src.plan {
        None => Err("baseline requires its saved staging plan"@),
        Some((plan_hash, base_commit)) => match spec_finance_application(src.application_repository@) {
            None => Err("baseline requires a registered Finance application"@),
            Some(app) => match window {
                None => Err("baseline window cannot fit its original clock"@),
                Some(w) => match text_result(src.authority_hash) {
                    Err(e) => Err(e),
                    Ok(ah) => match text_result(plan_hash) {
                        Err(e) => Err(e),
                        Ok(ph) => match text_result(src.previous_image_digest) {
                            Err(e) => Err(e),
                            Ok(d) => Ok((ah, ph, app, base_commit@, d, w)),
                        },
                    },
                },
            },
        },
    }
}

pub open spec fn record_view(r: WindowRecord) -> (Seq<char>, Seq<char>, Seq<char>, Seq<char>, Seq<char>, RuntimeWindow) {
    (r.authority_hash@, r.plan_hash@, r.expected.application@, r.expected.gitops_commit_sha@, r.expected.image_digest@, r.window)
}

impl WindowRecord {
    /// The baseline record of a staging execution created at `created_at_ms`.
    pub fn new(src: &BaselineSource, created_at_ms: i64, window: Option<RuntimeWindow>) -> (r: Result<WindowRecord, ApiError>)
        ensures
            match r {
                Ok(rec) => spec_window_record(*src, created_at_ms, window) == Ok::<(Seq<char>, Seq<char>, Seq<char>, Seq<char>, Seq<char>, RuntimeWindow), Seq<char>>(record_view(rec))
                    && rec.created_at_ms == created_at_ms
                    && rec.schema_version@ == "pharness.dev/hosted-staging-baseline/v1alpha1"@
                    && rec.expected.environment@ == "staging"@,
                Err(e) => e.kind == ErrorKind::Conflict && spec_window_record(*src, created_at_ms, window)
                    == Err::<(Seq<char>, Seq<char>, Seq<char>, Seq<char>, Seq<char>, RuntimeWindow), Seq<char>>(e.message@),
            },
    {
        let (plan_hash, base_commit) = match &src.plan {
            Some(p) => (&p.0, &p.1),
            None => return Err(ApiError::conflict("baseline requires its saved staging plan")),
        };
        let application = if str_eq(src.application_repository.as_str(), "https://github.com/lward27/yfinance_wrapper.git") {
            "yfinance"
        } else if str_eq(src.application_repository.as_str(), "https://github.com/lward27/finance-frontend.git") {
            "frontend"
        } else {
            return Err(ApiError::conflict("baseline requires a registered Finance application"));
        };
        let w = match window {
            Some(w) => w,
            None => return Err(ApiError::conflict("baseline window cannot fit its original clock")),
        };
        let authority_hash = match &src.authority_hash {
            Ok(h) => h.clone(),
            Err(e) => return Err(ApiError::conflict(e.as_str())),
        };
        let plan_hash = match plan_hash {
            Ok(h) => h.clone(),
            Err(e) => return Err(ApiError::conflict(e.as_str())),
        };
        let digest = match &src.previous_image_digest {
            Ok(d) => d.clone(),
            Err(e) => return Err(ApiError::conflict(e.as_str())),
        };
        Ok(WindowRecord {
            schema_version: String::from_str("pharness.dev/hosted-staging-baseline/v1alpha1"),
            authority_hash,
            plan_hash,
            created_at_ms,
            expected: DeploymentExpectation {
                application: String::from_str(application),
                environment: String::from_str("staging"),
                gitops_commit_sha: base_commit.clone(),
                image_digest: digest,
            },
            window: w,
        })
    }

    /// One minute after the window's end, in milliseconds, saturating (the
    /// end is read as a signed number, as it is stored).
    pub fn expires_at(&self) -> (r: i64)
        ensures
            r as int == spec_record_expires_at(self.window.end_unix_seconds),
    {
        let end = self.window.end_unix_seconds;
        let signed: i128 = if end <= 9223372036854775807u64 {
            end as i128
        } else {
            end as i128 - 18446744073709551616i128
        };
        let millis: i128 = clamp_i64(signed * 1000);
        clamp_i64(millis + 60000) as i64
    }

    /// Check a stored record against its operation, the clock, the
    /// execution allowance and the record derived afresh (`derived`).
    pub fn validate(&self, operation_created_at: i64, now: i64, authority_expires_at_ms: i64, derived: Result<WindowRecord, ApiError>) -> (r: Result<(), ApiError>)
        ensures
            r is Ok <==> ({
                &&& self.created_at_ms >= operation_created_at && self.created_at_ms <= now
                &&& derived matches Ok(d) && same_record(*self, d)
                &&& spec_record_expires_at(self.window.end_unix_seconds) < spec_saturating_add(operation_created_at, 1800000)
                &&& spec_record_expires_at(self.window.end_unix_seconds) < authority_expires_at_ms
            }),
            r matches Err(e) ==> if self.created_at_ms >= operation_created_at && self.created_at_ms <= now && derived is Err {
                derived == Err::<WindowRecord, ApiError>(e)
            } else {
                e.kind == ErrorKind::Conflict
                    && e.message@ == "baseline window differs from the original authority, plan or execution allowance"@
            },
    {
        if self.created_at_ms < operation_created_at || self.created_at_ms > now {
            return Err(ApiError::conflict("baseline window differs from the original authority, plan or execution allowance"));
        }
        let d = match derived {
            Ok(d) => d,
            Err(e) => return Err(e),
        };
        let limit = clamp_i64(operation_created_at as i128 + 1800000) as i64;
        if !same_record_exec(self, &d) || self.expires_at() >= limit || self.expires_at() >= authority_expires_at_ms {
            return Err(ApiError::conflict("baseline window differs from the original authority, plan or execution allowance"));
        }
        Ok(())
    }
}

/// Two records are the same in every field.
pub open spec fn same_record(a: WindowRecord, b: WindowRecord) -> bool {
    &&& a.schema_version@ == b.schema_version@
    &&& a.authority_hash@ == b.authority_hash@
    &&& a.plan_hash@ == b.plan_hash@
    &&& a.created_at_ms == b.created_at_ms
    &&& a.expected.application@ == b.expected.application@
    &&& a.expected.environment@ == b.expected.environment@
    &&& a.expected.gitops_commit_sha@ == b.expected.gitops_commit_sha@
    &&& a.expected.image_digest@ == b.expected.image_digest@
    &&& a.window == b.window
}

fn same_record_exec(a: &WindowRecord, b: &WindowRecord) -> (r: bool)
    ensures
        r == same_record(*a, *b),
{
    str_eq(a.schema_version.as_str(), b.schema_version.as_str()) && str_eq(a.authority_hash.as_str(), b.authority_hash.as_str())
        && str_eq(a.plan_hash.as_str(), b.plan_hash.as_str()) && a.created_at_ms == b.created_at_ms && str_eq(
        a.expected.application.as_str(),
        b.expected.application.as_str(),
    ) && str_eq(a.expected.environment.as_str(), b.expected.environment.as_str()) && str_eq(
        a.expected.gitops_commit_sha.as_str(),
        b.expected.gitops_commit_sha.as_str(),
    ) && str_eq(a.expected.image_digest.as_str(), b.expected.image_digest.as_str()) && a.window == b.window
}

pub open spec fn spec_clamp_i64(v: int) -> int {
    if v > i64::MAX {
        i64::MAX as int
    } else if v < i64::MIN {
        i64::MIN as int
    } else {
        v
    }
}

pub open spec fn spec_saturating_add(a: i64, b: int) -> int {
    spec_clamp_i64(a + b)
}

/// The signed reading of a stored window end, as milliseconds plus one
/// minute, saturating.
pub open spec fn spec_record_expires_at(end: u64) -> int {
    let signed = if end <= i64::MAX as u64 {
        end as int
    } else {
        end - 18446744073709551616
    };
    spec_clamp_i64(spec_clamp_i64(signed * 1000) + 60000)
}

fn clamp_i64(v: i128) -> (r: i128)
    requires
        -170141183460469231731687303715884105728 <= v <= 170141183460469231731687303715884105727,
    ensures
        r == spec_clamp_i64(v as int),
        i64::MIN <= r <= i64::MAX,
{
    if v > 9223372036854775807i128 {
        9223372036854775807i128
    } else if v < -9223372036854775808i128 {
        -9223372036854775808i128
    } else {
        v
    }
}

} // verus!
