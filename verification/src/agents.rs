//! Agent hosts: the stages they serve, how they authenticate, the bearer
//! credentials they present and when their leases expire.
use vstd::prelude::*;
use crate::clock::current_millis;
use crate::error::{ApiError, ErrorKind};
use crate::text::{decimal_u128, is_blank, spec_decimal, spec_is_blank, str_eq};

verus! {

/// The inference stages an execution policy can serve.
#[derive(Clone, Copy, Debug, PartialEq, Eq, Structural)]
pub enum InferenceStage {
    Onboarding,
    Plan,
    Implement,
    Test,
    Verify,
    Repair,
}

pub open spec fn spec_parse_stage(value: Seq<char>) -> Option<InferenceStage> {
    if value == "onboarding"@ {
        Some(InferenceStage::Onboarding)
    } else if value == "plan"@ {
        Some(InferenceStage::Plan)
    } else if value == "implement"@ {
        Some(InferenceStage::Implement)
    } else if value == "test"@ {
        Some(InferenceStage::Test)
    } else if value == "verify"@ {
        Some(InferenceStage::Verify)
    } else if value == "repair"@ {
        Some(InferenceStage::Repair)
    } else {
        None
    }
}

/// The stage a request names.
pub fn parse_stage(value: &str) -> (r: Result<InferenceStage, ApiError>)
    ensures
        match r {
            Ok(s) => spec_parse_stage(value@) == Some(s),
            Err(e) => spec_parse_stage(value@) is None && e.kind == ErrorKind::BadRequest
                && e.message@ == "unsupported agent stage"@,
        },
{
    if str_eq(value, "onboarding") {
        Ok(InferenceStage::Onboarding)
    } else if str_eq(value, "plan") {
        Ok(InferenceStage::Plan)
    } else if str_eq(value, "implement") {
        Ok(InferenceStage::Implement)
    } else if str_eq(value, "test") {
        Ok(InferenceStage::Test)
    } else if str_eq(value, "verify") {
        Ok(InferenceStage::Verify)
    } else if str_eq(value, "repair") {
        Ok(InferenceStage::Repair)
    } else {
        Err(ApiError::bad_request("unsupported agent stage"))
    }
}

/// How an agent host authenticates to its model provider.
#[derive(Clone, Copy, Debug, PartialEq, Eq, Structural)]
pub enum AgentAuthenticationClass {
    ChatgptSession,
    ApiKey,
    WorkloadIdentity,
}

pub open spec fn spec_parse_authentication_class(value: Seq<char>) -> Option<AgentAuthenticationClass> {
    if value == "chatgpt_session"@ {
        Some(AgentAuthenticationClass::ChatgptSession)
    } else if value == "api_key"@ {
        Some(AgentAuthenticationClass::ApiKey)
    } else if value == "workload_identity"@ {
        Some(AgentAuthenticationClass::WorkloadIdentity)
    } else {
        None
    }
}

pub fn parse_authentication_class(value: &str) -> (r: Option<AgentAuthenticationClass>)
    ensures
        r == spec_parse_authentication_class(value@),
{
    if str_eq(value, "chatgpt_session") {
        Some(AgentAuthenticationClass::ChatgptSession)
    } else if str_eq(value, "api_key") {
        Some(AgentAuthenticationClass::ApiKey)
    } else if str_eq(value, "workload_identity") {
        Some(AgentAuthenticationClass::WorkloadIdentity)
    } else {
        None
    }
}

pub open spec fn spec_normalize_architecture(value: Seq<char>) -> Seq<char> {
    if value == "x86_64"@ {
        "amd64"@
    } else {
        value
    }
}

/// The architecture name with `x86_64` spelled `amd64`.
pub fn normalize_architecture(value: &str) -> (r: &str)
    ensures
        r@ == spec_normalize_architecture(value@),
{
    if str_eq(value, "x86_64") {
        "amd64"
    } else {
        value
    }
}

/// The lease expiry `ttl_seconds` after `now_ms`, in milliseconds,
/// saturating at the largest representable instant.
pub open spec fn spec_expiry_millis_at(now_ms: u128, ttl_seconds: u64) -> nat {
    let total = now_ms + ttl_seconds * 1000;
    if total > u128::MAX {
        u128::MAX as nat
    } else {
        total as nat
    }
}

/// The decimal text of the expiry instant of a lease renewed at `now_ms`.
pub fn expiry_millis_at(now_ms: u128, ttl_seconds: u64) -> (r: String)
    ensures
        r@ == spec_decimal(spec_expiry_millis_at(now_ms, ttl_seconds)),
{
    let ttl_ms: u128 = ttl_seconds as u128 * 1000;
    let total: u128 = if now_ms > u128::MAX - ttl_ms {
        u128::MAX
    } else {
        now_ms + ttl_ms
    };
    decimal_u128(total)
}

/// The decimal text of the expiry instant of a lease renewed now.
pub fn expiry_millis(ttl_seconds: u64) -> (r: String)
    ensures
        exists|now_ms: u128| r@ == spec_decimal(#[trigger] spec_expiry_millis_at(now_ms, ttl_seconds)),
{
    let now_ms = current_millis();
    let r = expiry_millis_at(now_ms, ttl_seconds);
    assert(r@ == spec_decimal(spec_expiry_millis_at(now_ms, ttl_seconds)));
    r
}

/// The credential of an `Authorization: Bearer <token>` header whose token
/// is not blank.
pub open spec fn spec_bearer_token(header: Option<Seq<char>>) -> Option<Seq<char>> {
    match header {
        Some(h) => if h.len() >= 7 && h.subrange(0, 7) == "Bearer "@ && !spec_is_blank(h.subrange(7, h.len() as int)) {
            Some(h.subrange(7, h.len() as int))
        } else {
            None
        },
        None => None,
    }
}

/// The bearer credential of an `Authorization` header value (absent when the
/// header is missing or not visible ASCII).
pub fn bearer_token(header: Option<&str>) -> (r: Result<String, ApiError>)
    ensures
        match r {
            Ok(t) => spec_bearer_token(match header {
                Some(h) => Some(h@),
                None => None,
            }) == Some(t@),
            Err(e) => spec_bearer_token(match header {
                Some(h) => Some(h@),
                None => None,
            }) is None && e.kind == ErrorKind::Unauthorized && e.message@ == "missing bearer credential"@,
        },
{
    let h = match header {
        Some(h) => h,
        None => return Err(ApiError::unauthorized("missing bearer credential")),
    };
    let n = h.unicode_len();
    if n < 7 {
        return Err(ApiError::unauthorized("missing bearer credential"));
    }
    let prefix = h.substring_char(0, 7);
    if !str_eq(prefix, "Bearer ") {
        return Err(ApiError::unauthorized("missing bearer credential"));
    }
    let token = h.substring_char(7, n);
    if is_blank(token) {
        return Err(ApiError::unauthorized("missing bearer credential"));
    }
    Ok(token.to_owned())
}

} // verus!
