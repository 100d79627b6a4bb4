//! Records of staging runtime observation: the commit receipt a runtime
//! check starts from, the observations it records, artifact identities and
//! the observation window it is bounded by.
use vstd::prelude::*;
use super::artifact_id;
use super::evidence::{observation_identity, observation_proves_change, validate_observation, ObservationExpectation};
use crate::artifacts::{content_view, StoredArtifact};
use crate::error::{ApiError, ErrorKind};
use crate::json::{get_i64, get_str, i64_member, json_equal, str_member, Json, JsonValue};
use crate::text::{decimal_u128, opt_text, parse_i64, spec_decimal, str_eq};

verus! {

/// The artifact of a runtime observation step of a staging execution.
pub fn id(execution_id: &str, step: &str) -> (r: String)
    ensures
        r@ == "staging_"@ + ("runtime_"@ + step@) + "_"@ + execution_id@,
{
    let kind = String::from_str("runtime_").concat(step);
    artifact_id(kind.as_str(), execution_id)
}

/// The applications whose staging runtime can be observed.
#[derive(Clone, Copy, Debug, PartialEq, Eq, Structural)]
pub enum FinanceApplication {
    Yfinance,
    Frontend,
}

pub open spec fn spec_registered_application(repository: Seq<char>) -> Option<FinanceApplication> {
    if repository == "https://github.com/lward27/yfinance_wrapper.git"@ {
        Some(FinanceApplication::Yfinance)
    } else if repository == "https://github.com/lward27/finance-frontend.git"@ {
        Some(FinanceApplication::Frontend)
    } else {
        None
    }
}

/// The registered application an application repository names, if any.
pub fn registered_application(repository: &str) -> (r: Option<FinanceApplication>)
    ensures
        r == spec_registered_application(repository@),
{
    if str_eq(repository, "https://github.com/lward27/yfinance_wrapper.git") {
        Some(FinanceApplication::Yfinance)
    } else if str_eq(repository, "https://github.com/lward27/finance-frontend.git") {
        Some(FinanceApplication::Frontend)
    } else {
        None
    }
}

/// Where a staging runtime check comes from: the execution and pipeline it
/// belongs to, the hash of its authority and the application it deploys.
pub struct RuntimeOrigin {
    pub execution_id: String,
    pub session_id: String,
    pub run_id: Option<String>,
    pub authority_hash: String,
    pub application_repository: String,
}

/// What a runtime check takes from its commit receipt.
pub struct RuntimeCommit {
    pub application: FinanceApplication,
    /// The GitOps revision the first accepted observation saw.
    pub gitops_commit_sha: String,
    /// The identity of the admitted observation.
    pub identity: JsonValue,
    pub commit_checked_at_ms: i64,
}

pub open spec fn member_or_null(body: Json, key: Seq<char>) -> Json {
    match body.get(key) {
        Some(v) => v,
        None => Json::Null,
    }
}

pub open spec fn checked_or_zero(body: Json) -> i64 {
    match i64_member(body, "checked_at_ms"@) {
        Some(t) => t as i64,
        None => 0,
    }
}

/// The refusal owed to a commit receipt a runtime check would start from,
/// in the order the checks run: content, plan, the observation it holds,
/// then its identity, origin and authority, then the application.
pub open spec fn spec_runtime_commit_refusal(
    receipt: StoredArtifact,
    receipt_session_id: Seq<char>,
    origin: RuntimeOrigin,
    expectation: Option<ObservationExpectation>,
    now: i64,
) -> Option<Seq<char>> {
    match content_view(receipt) {
        None => Some("staging runtime requires its original commit receipt"@),
        Some(body) => match expectation {
            None => Some("staging runtime requires its original plan"@),
            Some(x) => {
                let o = member_or_null(body, "observation"@);
                if !observation_proves_change(o, x, checked_or_zero(body), now) {
                    Some("staging observation does not prove the admitted one-file digest change"@)
                } else if receipt.id@ != "staging_"@ + "commit"@ + "_"@ + origin.execution_id@
                    || receipt.kind@ != "hosted_staging_commit"@ || receipt_session_id != origin.session_id@
                    || opt_text(receipt.run_id) != opt_text(origin.run_id) || body.get("identity"@) != Some(
                    observation_identity(o),
                ) || str_member(body, "authority_hash"@) != Some(origin.authority_hash@) {
                    Some("staging runtime commit receipt has different authority or origin"@)
                } else if spec_registered_application(origin.application_repository@) is None {
                    Some("staging runtime requires a registered Finance application"@)
                } else {
                    None
                }
            },
        },
    }
}

fn same_run(a: &Option<String>, b: &Option<String>) -> (r: bool)
    ensures
        r == (opt_text(*a) == opt_text(*b)),
{
    match (a, b) {
        (Some(x), Some(y)) => str_eq(x.as_str(), y.as_str()),
        (None, None) => true,
        _ => false,
    }
}

/// Check the commit receipt a staging runtime check starts from against its
/// origin: the receipt must hold an observation that still proves the
/// admitted change, be the execution's own commit receipt in the same
/// pipeline with the same identity and authority, and the application must
/// be a registered one. `expectation` is absent when the original plan is.
pub fn runtime_commit(
    receipt: &StoredArtifact,
    receipt_session_id: &str,
    origin: &RuntimeOrigin,
    expectation: Option<&ObservationExpectation>,
    now: i64,
) -> (r: Result<RuntimeCommit, ApiError>)
    requires
        spec_runtime_commit_refusal(
            *receipt,
            receipt_session_id@,
            *origin,
            match expectation {
                Some(x) => Some(*x),
                None => None,
            },
            now,
        ) is None ==> i64_member(content_view(*receipt)->0, "checked_at_ms"@) is Some,
    ensures
        match r {
            Ok(c) => {
                let body = content_view(*receipt)->0;
                let o = member_or_null(body, "observation"@);
                &&& spec_runtime_commit_refusal(
                    *receipt,
                    receipt_session_id@,
                    *origin,
                    match expectation {
                        Some(x) => Some(*x),
                        None => None,
                    },
                    now,
                ) is None
                &&& Some(c.application) == spec_registered_application(origin.application_repository@)
                &&& str_member(o, "current_gitops_revision"@) == Some(c.gitops_commit_sha@)
                &&& c.identity@ == observation_identity(o)
                &&& i64_member(body, "checked_at_ms"@) == Some(c.commit_checked_at_ms as int)
            },
            Err(e) => e.kind == ErrorKind::Conflict && spec_runtime_commit_refusal(
                *receipt,
                receipt_session_id@,
                *origin,
                match expectation {
                    Some(x) => Some(*x),
                    None => None,
                },
                now,
            ) == Some(e.message@),
        },
{
    let body = match &receipt.content_json {
        Some(b) => b,
        None => return Err(ApiError::conflict("staging runtime requires its original commit receipt")),
    };
    let x = match expectation {
        Some(x) => x,
        None => return Err(ApiError::conflict("staging runtime requires its original plan")),
    };
    let null = JsonValue::Null;
    let o = match body.get("observation") {
        Some(o) => o,
        None => &null,
    };
    let checked = match get_i64(body, "checked_at_ms") {
        Some(t) => t,
        None => 0,
    };
    let identity = match validate_observation(o, x, checked, now) {
        Ok(i) => i,
        Err(e) => return Err(e),
    };
    let same_identity = match body.get("identity") {
        Some(v) => json_equal(v, &identity),
        None => false,
    };
    let expected_id = artifact_id("commit", origin.execution_id.as_str());
    let same_authority = match get_str(body, "authority_hash") {
        Some(h) => str_eq(h, origin.authority_hash.as_str()),
        None => false,
    };
    if !str_eq(receipt.id.as_str(), expected_id.as_str()) || !str_eq(receipt.kind.as_str(), "hosted_staging_commit")
        || !str_eq(receipt_session_id, origin.session_id.as_str()) || !same_run(&receipt.run_id, &origin.run_id)
        || !same_identity || !same_authority {
        return Err(ApiError::conflict("staging runtime commit receipt has different authority or origin"));
    }
    let application = match registered_application(origin.application_repository.as_str()) {
        Some(a) => a,
        None => return Err(ApiError::conflict("staging runtime requires a registered Finance application")),
    };
    let revision = match get_str(o, "current_gitops_revision") {
        Some(s) => s.to_owned(),
        None => {
            assert(false);
            String::new()
        },
    };
    let commit_checked_at_ms = match get_i64(body, "checked_at_ms") {
        Some(t) => t,
        None => {
            assert(false);
            0
        },
    };
    Ok(RuntimeCommit { application, gitops_commit_sha: revision, identity, commit_checked_at_ms })
}

/// The refusal owed to a recorded runtime observation of `step`, if any: it
/// must be of the step's kind and from the same pipeline, hold content, and
/// be bound to the same commit binding and expected deployment.
pub open spec fn spec_runtime_record_refusal(
    record: StoredArtifact,
    record_session_id: Seq<char>,
    step: Seq<char>,
    origin: RuntimeOrigin,
    binding: Json,
    expected: Json,
) -> Option<Seq<char>> {
    if record.kind@ != "hosted_staging_runtime_"@ + step || record_session_id != origin.session_id@ || opt_text(
        record.run_id,
    ) != opt_text(origin.run_id) {
        Some("staging runtime observation has different native origin"@)
    } else {
        match content_view(record) {
            None => Some("staging runtime observation has no content"@),
            Some(body) => if member_or_null(body, "binding"@) != binding || member_or_null(body, "expected"@) != expected {
                Some("staging runtime observation is bound to another commit, image or authority"@)
            } else {
                None
            },
        }
    }
}

/// Read back a recorded runtime observation of `step`: absent stays absent,
/// and one that is present must come from the same origin and binding.
pub fn runtime_record(
    record: Option<&StoredArtifact>,
    record_session_id: &str,
    step: &str,
    origin: &RuntimeOrigin,
    binding: &JsonValue,
    expected: &JsonValue,
) -> (r: Result<Option<JsonValue>, ApiError>)
    ensures
        match record {
            None => r == Ok::<Option<JsonValue>, ApiError>(None),
            Some(a) => match r {
                Ok(Some(body)) => spec_runtime_record_refusal(*a, record_session_id@, step@, *origin, binding@, expected@)
                    is None && content_view(*a) == Some(body@),
                Ok(None) => false,
                Err(e) => e.kind == ErrorKind::Conflict && spec_runtime_record_refusal(
                    *a,
                    record_session_id@,
                    step@,
                    *origin,
                    binding@,
                    expected@,
                ) == Some(e.message@),
            },
        },
{
    let a = match record {
        Some(a) => a,
        None => return Ok(None),
    };
    let kind = String::from_str("hosted_staging_runtime_").concat(step);
    if !str_eq(a.kind.as_str(), kind.as_str()) || !str_eq(record_session_id, origin.session_id.as_str()) || !same_run(
        &a.run_id,
        &origin.run_id,
    ) {
        return Err(ApiError::conflict("staging runtime observation has different native origin"));
    }
    let body = match &a.content_json {
        Some(b) => b,
        None => return Err(ApiError::conflict("staging runtime observation has no content")),
    };
    let null = JsonValue::Null;
    let b = match body.get("binding") {
        Some(v) => v,
        None => &null,
    };
    let e = match body.get("expected") {
        Some(v) => v,
        None => &null,
    };
    if !json_equal(b, binding) || !json_equal(e, expected) {
        return Err(ApiError::conflict("staging runtime observation is bound to another commit, image or authority"));
    }
    Ok(Some(body.duplicate()))
}

/// A runtime observation window, in Unix seconds.
#[derive(Clone, Copy, Debug, PartialEq, Eq, Structural)]
pub struct RuntimeWindow {
    pub start_unix_seconds: u64,
    pub end_unix_seconds: u64,
}

/// The limits a runtime window must stay within.
pub struct WindowBounds {
    pub operation_created_at: i64,
    pub commit_checked_at_ms: i64,
    pub now: i64,
    pub authority_expires_at_ms: i64,
    pub max_checks: u32,
}

/// The window a runtime observation is bounded by and the identity step it
/// starts from.
pub struct Window {
    pub created_at_ms: i64,
    pub window: RuntimeWindow,
    pub initial_step: String,
}

pub open spec fn spec_window_expires_at(w: RuntimeWindow) -> int {
    w.end_unix_seconds * 1000 + 60000
}

/// The initial step names identity check `n` for some `n` in `1..=max`,
/// spelled without leading zeros or sign.
pub open spec fn spec_initial_step_ok(step: Seq<char>, max_checks: u32) -> bool {
    exists|n: nat| 1 <= n <= max_checks && #[trigger] spec_decimal(n) == step.subrange(9, step.len() as int)
        && step.len() > 9 && step.subrange(0, 9) == "identity_"@
}

pub open spec fn spec_window_valid(w: Window, b: WindowBounds, expected: Option<RuntimeWindow>) -> bool {
    &&& expected matches Some(e) && w.window == e
    &&& w.created_at_ms >= b.operation_created_at
    &&& w.created_at_ms >= b.commit_checked_at_ms
    &&& w.created_at_ms <= b.now
    &&& spec_window_expires_at(w.window) < b.authority_expires_at_ms
    &&& spec_initial_step_ok(w.initial_step@, b.max_checks)
}

proof fn lemma_decimal_nonempty(n: nat)
    ensures
        spec_decimal(n).len() >= 1,
    decreases n,
{
    if n >= 10 {
        lemma_decimal_nonempty(n / 10);
    }
}

impl Window {
    /// When the window's evidence stops being accepted: one minute after its
    /// end.
    pub fn expires_at(&self) -> (r: i64)
        requires
            spec_window_expires_at(self.window) <= i64::MAX,
        ensures
            r as int == spec_window_expires_at(self.window),
    {
        (self.window.end_unix_seconds as i64) * 1000 + 60000
    }

    /// Whether the initial step names a valid identity check.
    fn initial_step_ok(&self, max_checks: u32) -> (r: bool)
        ensures
            r == spec_initial_step_ok(self.initial_step@, max_checks),
    {
        let s = self.initial_step.as_str();
        let n = s.unicode_len();
        proof {
            reveal_strlit("identity_");
        }
        if n <= 9 || !str_eq(s.substring_char(0, 9), "identity_") {
            return false;
        }
        let digits = s.substring_char(9, n);
        let value = match parse_i64(digits) {
            Some(v) => v,
            None => {
                proof {
                    if spec_initial_step_ok(self.initial_step@, max_checks) {
                        let k = choose|k: nat| 1 <= k <= max_checks && #[trigger] spec_decimal(k) == s@.subrange(9, s@.len() as int)
                            && s@.len() > 9 && s@.subrange(0, 9) == "identity_"@;
                        lemma_decimal_parses(k);
                    }
                }
                return false;
            },
        };
        if value < 1 || value > max_checks as i64 {
            proof {
                if spec_initial_step_ok(self.initial_step@, max_checks) {
                    let k = choose|k: nat| 1 <= k <= max_checks && #[trigger] spec_decimal(k) == s@.subrange(9, s@.len() as int)
                        && s@.len() > 9 && s@.subrange(0, 9) == "identity_"@;
                    lemma_decimal_parses(k);
                }
            }
            return false;
        }
        let canonical = decimal_u128(value as u128);
        let ok = str_eq(canonical.as_str(), digits);
        proof {
            if ok {
                assert(spec_decimal(value as nat) == s@.subrange(9, n as int));
            } else if spec_initial_step_ok(self.initial_step@, max_checks) {
                let k = choose|k: nat| 1 <= k <= max_checks && #[trigger] spec_decimal(k) == s@.subrange(9, s@.len() as int)
                    && s@.len() > 9 && s@.subrange(0, 9) == "identity_"@;
                lemma_decimal_parses(k);
            }
        }
        ok
    }

    /// Check the window against the operation, the commit check, the clock,
    /// the authority's expiry and the window the creation time determines.
    pub fn validate(&self, bounds: &WindowBounds, expected: Option<RuntimeWindow>) -> (r: Result<(), ApiError>)
        requires
            spec_window_expires_at(self.window) <= i64::MAX,
        ensures
            r is Ok <==> spec_window_valid(*self, *bounds, expected),
            r matches Err(e) ==> e.kind == ErrorKind::Conflict && e.message@ == if !(expected matches Some(x) && self.window == x) {
                "staging runtime window is invalid"@
            } else {
                "staging runtime window exceeds its original operation or identity allowance"@
            },
    {
        let window_ok = match expected {
            Some(e) => self.window == e,
            None => false,
        };
        if !window_ok {
            return Err(ApiError::conflict("staging runtime window is invalid"));
        }
        if self.created_at_ms < bounds.operation_created_at || self.created_at_ms < bounds.commit_checked_at_ms
            || self.created_at_ms > bounds.now || self.expires_at() >= bounds.authority_expires_at_ms
            || !self.initial_step_ok(bounds.max_checks) {
            return Err(ApiError::conflict("staging runtime window exceeds its original operation or identity allowance"));
        }
        Ok(())
    }

    /// A window created at `created` starting from `initial_step`, where
    /// `expected` is the window that creation time determines (`None` when
    /// none fits).
    pub fn new(created: i64, initial_step: String, expected: Option<RuntimeWindow>, bounds: &WindowBounds) -> (r: Result<Window, ApiError>)
        requires
            expected matches Some(e) ==> spec_window_expires_at(e) <= i64::MAX,
        ensures
            match r {
                Ok(w) => w.created_at_ms == created && w.initial_step@ == initial_step@ && expected == Some(w.window)
                    && spec_window_valid(w, *bounds, expected),
                Err(e) => e.kind == ErrorKind::Conflict && !(expected matches Some(x) && spec_window_valid(
                    Window { created_at_ms: created, window: x, initial_step },
                    *bounds,
                    expected,
                )) && e.message@ == if expected is None {
                    "staging runtime window is invalid"@
                } else {
                    "staging runtime window exceeds its original operation or identity allowance"@
                },
            },
    {
        let window = match expected {
            Some(w) => w,
            None => return Err(ApiError::conflict("staging runtime window is invalid")),
        };
        let value = Window { created_at_ms: created, window, initial_step };
        match value.validate(bounds, expected) {
            Ok(()) => Ok(value),
            Err(e) => Err(e),
        }
    }
}

/// The decimal text of `n` parses back to `n`.
proof fn lemma_decimal_parses(n: nat)
    requires
        1 <= n <= u32::MAX,
    ensures
        crate::text::spec_parse_i64(spec_decimal(n)) == Some(n as int),
{
    lemma_decimal_digits(n);
    let d = spec_decimal(n);
    lemma_decimal_nonempty(n);
    if d[0] == '-' || d[0] == '+' {
        lemma_decimal_first_is_digit(n);
    }
}

proof fn lemma_decimal_first_is_digit(n: nat)
    ensures
        spec_decimal(n).len() >= 1,
        crate::text::is_digit_char(spec_decimal(n)[0]),
    decreases n,
{
    lemma_decimal_nonempty(n);
    if n >= 10 {
        lemma_decimal_first_is_digit(n / 10);
        lemma_decimal_nonempty(n / 10);
        assert((spec_decimal(n / 10) + seq![crate::text::spec_digit_char(n as int % 10)])[0] == spec_decimal(n / 10)[0]);
    }
}

proof fn lemma_digit_char(d: int)
    requires
        0 <= d < 10,
    ensures
        crate::text::is_digit_char(crate::text::spec_digit_char(d)),
        crate::text::digit_value(crate::text::spec_digit_char(d)) == d,
{
}

proof fn lemma_decimal_digits(n: nat)
    ensures
        crate::text::all_digits(spec_decimal(n)),
        crate::text::digits_value(spec_decimal(n)) == n,
    decreases n,
{
    if n < 10 {
        let d = spec_decimal(n);
        lemma_digit_char(n as int);
        assert(d.drop_last() =~= Seq::<char>::empty());
        assert(crate::text::digits_value(d.drop_last()) == 0);
        assert(d.last() == crate::text::spec_digit_char(n as int));
    } else {
        lemma_digit_char(n as int % 10);
        lemma_decimal_digits(n / 10);
        let d = spec_decimal(n);
        let head = spec_decimal(n / 10);
        assert(d.drop_last() =~= head);
        assert(d.last() == crate::text::spec_digit_char(n as int % 10));
        assert(crate::text::digits_value(d) == crate::text::digits_value(head) * 10 + crate::text::digit_value(d.last()));
        assert((n / 10) * 10 + n % 10 == n);
        assert forall|i: int| 0 <= i < d.len() implies crate::text::is_digit_char(#[trigger] d[i]) by {
            if i < head.len() {
                assert(d[i] == head[i]);
            }
        }
    }
}

} // verus!
