//! The verified-build stage: the identifiers of its records and what a build
//! executor's or observer's report on a PipelineRun leads to.
use vstd::prelude::*;
use vstd::utf8::encode_utf8;
use crate::artifacts::StoredArtifact;
use crate::error::{ApiError, ErrorKind};
use crate::json::{json_equal, path_view, str_member, Json, JsonValue};
use crate::text::str_eq;
use crate::validation::{is_bounded_code, spec_is_bounded_code};

verus! {

/// The artifact recording a build attempt of an execution.
pub fn attempt_id(execution: &str) -> (r: String)
    ensures
        r@ == "build_attempt_"@ + execution@,
{
    String::from_str("build_attempt_").concat(execution)
}

/// The artifact recording the terminal outcome of a build execution.
pub fn terminal_id(execution: &str) -> (r: String)
    ensures
        r@ == "build_terminal_"@ + execution@,
{
    String::from_str("build_terminal_").concat(execution)
}


/// Whether the one PipelineRun create of an execution may be admitted: the
/// dispatch still names the manifest and nothing was admitted or finished.
pub fn admit_build_attempt(dispatch: &JsonValue, manifest_hash: &str, attempt_recorded: bool, terminal_recorded: bool) -> (r: Result<(), ApiError>)
    ensures
        match r {
            Ok(()) => str_member(dispatch@, "manifest_hash"@) == Some(manifest_hash@) && !attempt_recorded && !terminal_recorded,
            Err(e) => e.kind == ErrorKind::Conflict && e.message@ == if str_member(dispatch@, "manifest_hash"@) != Some(manifest_hash@) {
                "hosted build admission manifest changed"@
            } else {
                "the original build was already admitted; observe its PipelineRun without another create attempt"@
            },
        },
{
    let same = match crate::json::get_str(dispatch, "manifest_hash") {
        Some(h) => str_eq(h, manifest_hash),
        None => false,
    };
    if !same {
        return Err(ApiError::conflict("hosted build admission manifest changed"));
    }
    if attempt_recorded || terminal_recorded {
        return Err(ApiError::conflict("the original build was already admitted; observe its PipelineRun without another create attempt"));
    }
    Ok(())
}

/// A build executor's or observer's report on a PipelineRun.
pub struct BuildOutcome {
    pub execution_id: String,
    pub manifest_hash: String,
    pub pipeline_run: Option<JsonValue>,
    pub analysis: Option<JsonValue>,
    pub error_code: Option<String>,
    pub observe_only: bool,
}

/// What the facts around a build report are: the hash of the dispatched
/// manifest, the serialized sizes of the run and the analysis, the
/// admission recorded for the execution, the run validator's verdict and
/// whether a terminal receipt already exists.
pub struct BuildReportFacts {
    pub manifest_hash: String,
    pub run_size: usize,
    pub analysis_size: usize,
    pub run_check: Result<(), String>,
    pub terminal_recorded: bool,
}

/// What a build report leads to.
pub enum BuildOutcomeStep {
    /// The run could not be observed: record an exception under this name.
    Unconfirmed { artifact_name: String, error_code: String },
    /// Record the observation under `receipt_id` with this status.
    Record { status: &'static str, receipt_id: String },
    /// A late initial report after the terminal one: only settle the intent.
    Settle,
}

pub open spec fn or_null(v: Option<Json>) -> Json {
    match v {
        Some(j) => j,
        None => Json::Null,
    }
}

/// `value[a][b]...` with a missing step reading as `null`.
pub open spec fn at(v: Json, path: Seq<Seq<char>>) -> Json {
    or_null(v.pointer(path))
}

/// The first item whose `key` member is the text `value`.
pub open spec fn first_with(items: Seq<Json>, key: Seq<char>, value: Seq<char>) -> Option<Json>
    decreases items.len(),
{
    if items.len() == 0 {
        None
    } else if str_member(items[0], key) == Some(value) {
        Some(items[0])
    } else {
        first_with(items.drop_first(), key, value)
    }
}

pub open spec fn array_items(v: Json) -> Seq<Json> {
    match v {
        Json::Array(items) => items,
        _ => Seq::empty(),
    }
}

/// The status of the run's `Succeeded` condition.
pub open spec fn succeeded_condition(run: Json) -> Option<Seq<char>> {
    match run.pointer(seq!["status"@, "conditions"@]) {
        Some(Json::Array(items)) => match first_with(items, "type"@, "Succeeded"@) {
            Some(c) => str_member(c, "status"@),
            None => None,
        },
        _ => None,
    }
}

pub open spec fn spec_build_status(run: Json) -> Seq<char> {
    match succeeded_condition(run) {
        Some(s) => if s == "True"@ {
            "completed"@
        } else if s == "False"@ {
            "failed"@
        } else {
            "submitted"@
        },
        None => "submitted"@,
    }
}

/// The value the run declares for result `name`, `null` when it declares none.
pub open spec fn declared_result(run: Json, name: Seq<char>) -> Json {
    match run.pointer(seq!["status"@, "results"@]) {
        Some(Json::Array(items)) => match first_with(items, "name"@, name) {
            Some(r) => at(r, seq!["value"@]),
            None => Json::Null,
        },
        _ => Json::Null,
    }
}

/// The analysis reports exactly the run's declared results.
pub open spec fn declared_results_match(analysis: Json, run: Json) -> bool {
    &&& at(analysis, seq!["outputs"@, "declared_results"@, "SOURCE_COMMIT"@]) == declared_result(run, "SOURCE_COMMIT"@)
    &&& at(analysis, seq!["outputs"@, "declared_results"@, "IMAGE_URL"@]) == declared_result(run, "IMAGE_URL"@)
    &&& at(analysis, seq!["outputs"@, "declared_results"@, "IMAGE_DIGEST"@]) == declared_result(run, "IMAGE_DIGEST"@)
}

pub open spec fn spec_exception_name(o: BuildOutcome) -> Seq<char> {
    "build_exception_"@ + o.execution_id@ + "_"@ + if o.observe_only {
        "observer"@
    } else {
        "executor"@
    }
}

pub open spec fn admission_ok(attempt: StoredArtifact, manifest_hash: Seq<char>) -> bool {
    &&& attempt.kind@ == "hosted_build_admission"@
    &&& attempt.content_json matches Some(c) && c@.get("manifest_hash"@) == Some(Json::Str(manifest_hash))
}

pub enum BuildVerdict {
    Unconfirmed(Seq<char>, Seq<char>),
    Record(Seq<char>, Seq<char>),
    Settle,
    Refused(ErrorKind, Seq<char>),
}

/// The verdict owed for a build report.
pub open spec fn spec_build_verdict(o: BuildOutcome, f: BuildReportFacts, attempt: Option<StoredArtifact>) -> BuildVerdict {
    if o.manifest_hash@ != f.manifest_hash@ {
        BuildVerdict::Refused(ErrorKind::Conflict, "hosted build outcome manifest changed"@)
    } else {
        match o.pipeline_run {
            None => match o.error_code {
                Some(c) if spec_is_bounded_code(encode_utf8(c@)) => if o.analysis is Some {
                    BuildVerdict::Refused(ErrorKind::BadRequest, "unavailable build observation cannot contain successful analysis"@)
                } else {
                    BuildVerdict::Unconfirmed(spec_exception_name(o), c@)
                },
                _ => BuildVerdict::Refused(ErrorKind::BadRequest, "unavailable build observation requires a bounded error code"@),
            },
            Some(run) => if o.error_code is Some || f.run_size > 524288 {
                BuildVerdict::Refused(ErrorKind::BadRequest, "hosted build observation is contradictory or exceeds its evidence limit"@)
            } else {
                match attempt {
                    None => BuildVerdict::Refused(ErrorKind::Conflict, "observed PipelineRun has no admitted autonomous build"@),
                    Some(adm) => if !admission_ok(adm, o.manifest_hash@) {
                        BuildVerdict::Refused(ErrorKind::Conflict, "hosted build admission differs from its original manifest"@)
                    } else {
                        match f.run_check {
                            Err(m) => BuildVerdict::Refused(ErrorKind::Conflict, m@),
                            Ok(()) => {
                                let status = spec_build_status(run@);
                                if status != "submitted"@ {
                                    match o.analysis {
                                        None => BuildVerdict::Refused(ErrorKind::Conflict, "terminal hosted build requires its bounded PipelineRun analysis"@),
                                        Some(an) => if f.analysis_size > 524288 || at(an@, seq!["pipeline_run"@, "uid"@]) != at(
                                            run@,
                                            seq!["metadata"@, "uid"@],
                                        ) {
                                            BuildVerdict::Refused(ErrorKind::Conflict, "hosted build analysis belongs to a different PipelineRun or exceeds its evidence limit"@)
                                        } else if !declared_results_match(an@, run@) {
                                            BuildVerdict::Refused(ErrorKind::Conflict, "hosted build analysis differs from the actual declared PipelineRun results"@)
                                        } else {
                                            BuildVerdict::Record(status, "build_terminal_"@ + o.execution_id@)
                                        },
                                    }
                                } else if o.analysis is Some {
                                    BuildVerdict::Refused(ErrorKind::BadRequest, "a running PipelineRun cannot report terminal analysis"@)
                                } else if f.terminal_recorded {
                                    BuildVerdict::Settle
                                } else {
                                    BuildVerdict::Record(status, "build_submitted_"@ + o.execution_id@)
                                }
                            },
                        }
                    },
                }
            },
        }
    }
}

pub(crate) fn null_json() -> (r: JsonValue)
    ensures
        r@ == Json::Null,
{
    JsonValue::Null
}

fn first_with_exec<'a>(items: &'a Vec<JsonValue>, key: &str, value: &str) -> (r: Option<&'a JsonValue>)
    ensures
        crate::json::opt_json_view(r) == first_with(crate::json::items_view(items@), key@, value@),
{
    let ghost all = crate::json::items_view(items@);
    let mut i: usize = 0;
    proof {
        assert(all.subrange(0, all.len() as int) =~= all);
    }
    while i < items.len()
        invariant
            all == crate::json::items_view(items@),
            i <= items@.len(),
            first_with(all, key@, value@) == first_with(all.subrange(i as int, all.len() as int), key@, value@),
        decreases items@.len() - i,
    {
        proof {
            let rest = all.subrange(i as int, all.len() as int);
            assert(rest.drop_first() =~= all.subrange(i + 1, all.len() as int));
            assert(rest[0] == items@[i as int]@);
        }
        let hit = match crate::json::get_str(&items[i], key) {
            Some(v) => str_eq(v, value),
            None => false,
        };
        if hit {
            return Some(&items[i]);
        }
        i = i + 1;
    }
    proof {
        assert(all.subrange(i as int, all.len() as int).len() == 0);
    }
    None
}

fn build_status(run: &JsonValue) -> (r: &'static str)
    ensures
        r@ == spec_build_status(run@),
{
    let succeeded = match run.pointer(&["status", "conditions"]) {
        Some(JsonValue::Array(items)) => {
            proof {
                crate::json::lemma_array_view(*items);
            }
            match first_with_exec(items, "type", "Succeeded") {
                Some(c) => crate::json::get_str(c, "status"),
                None => None,
            }
        },
        _ => None,
    };
    proof {
        reveal_strlit("status");
        reveal_strlit("conditions");
        assert(path_view(seq!["status", "conditions"]) =~= seq!["status"@, "conditions"@]);
    }
    match succeeded {
        Some(s) => {
            if str_eq(s, "True") {
                "completed"
            } else if str_eq(s, "False") {
                "failed"
            } else {
                "submitted"
            }
        },
        None => "submitted",
    }
}

fn declared_result_of(run: &JsonValue, name: &str) -> (r: JsonValue)
    ensures
        r@ == declared_result(run@, name@),
{
    proof {
        reveal_strlit("status");
        reveal_strlit("results");
        reveal_strlit("value");
        assert(path_view(seq!["status", "results"]) =~= seq!["status"@, "results"@]);
        assert(path_view(seq!["value"]) =~= seq!["value"@]);
    }
    let results = run.pointer(&["status", "results"]);
    proof {
        assert(crate::json::opt_json_view(results) == run@.pointer(seq!["status"@, "results"@]));
    }
    match results {
        Some(JsonValue::Array(items)) => {
            proof {
                crate::json::lemma_array_view(*items);
            }
            match first_with_exec(items, "name", name) {
                Some(r) => {
                    let v = r.get("value");
                    proof {
                        let p = seq!["value"@];
                        assert(p.drop_first() =~= Seq::<Seq<char>>::empty());
                        assert(p[0] == "value"@);
                        match r@.get("value"@) {
                            Some(c) => {
                                assert(c.pointer(p.drop_first()) == Some(c));
                            },
                            None => {},
                        }
                        assert(crate::json::opt_json_view(v) == r@.pointer(p));
                    }
                    match v {
                        Some(v) => v.duplicate(),
                        None => null_json(),
                    }
                },
                None => null_json(),
            }
        },
        _ => null_json(),
    }
}

pub(crate) fn at_exec(v: &JsonValue, path: &[&str]) -> (r: JsonValue)
    ensures
        r@ == at(v@, path_view(path@)),
{
    match v.pointer(path) {
        Some(x) => x.duplicate(),
        None => null_json(),
    }
}

fn results_match(analysis: &JsonValue, run: &JsonValue) -> (r: bool)
    ensures
        r == declared_results_match(analysis@, run@),
{
    proof {
        assert(path_view(seq!["outputs", "declared_results", "SOURCE_COMMIT"]) =~= seq!["outputs"@, "declared_results"@, "SOURCE_COMMIT"@]);
        assert(path_view(seq!["outputs", "declared_results", "IMAGE_URL"]) =~= seq!["outputs"@, "declared_results"@, "IMAGE_URL"@]);
        assert(path_view(seq!["outputs", "declared_results", "IMAGE_DIGEST"]) =~= seq!["outputs"@, "declared_results"@, "IMAGE_DIGEST"@]);
    }
    json_equal(&at_exec(analysis, &["outputs", "declared_results", "SOURCE_COMMIT"]), &declared_result_of(run, "SOURCE_COMMIT"))
        && json_equal(&at_exec(analysis, &["outputs", "declared_results", "IMAGE_URL"]), &declared_result_of(run, "IMAGE_URL"))
        && json_equal(&at_exec(analysis, &["outputs", "declared_results", "IMAGE_DIGEST"]), &declared_result_of(run, "IMAGE_DIGEST"))
}

fn admission_matches(attempt: &StoredArtifact, manifest_hash: &str) -> (r: bool)
    ensures
        r == admission_ok(*attempt, manifest_hash@),
{
    if !str_eq(attempt.kind.as_str(), "hosted_build_admission") {
        return false;
    }
    match &attempt.content_json {
        Some(c) => match c.get("manifest_hash") {
            Some(JsonValue::Str(h)) => str_eq(h.as_str(), manifest_hash),
            _ => false,
        },
        None => false,
    }
}

pub open spec fn step_is(r: Result<BuildOutcomeStep, ApiError>, v: BuildVerdict) -> bool {
    match r {
        Ok(BuildOutcomeStep::Unconfirmed { artifact_name, error_code }) => v == BuildVerdict::Unconfirmed(artifact_name@, error_code@),
        Ok(BuildOutcomeStep::Record { status, receipt_id }) => v == BuildVerdict::Record(status@, receipt_id@),
        Ok(BuildOutcomeStep::Settle) => v == BuildVerdict::Settle,
        Err(e) => v == BuildVerdict::Refused(e.kind, e.message@),
    }
}

/// Decide what a build report leads to. A terminal status still needs the
/// analysis validator before its receipt is written.
pub fn build_outcome_step(o: &BuildOutcome, f: &BuildReportFacts, attempt: Option<&StoredArtifact>) -> (r: Result<BuildOutcomeStep, ApiError>)
    ensures
        step_is(r, spec_build_verdict(*o, *f, match attempt {
            Some(a) => Some(*a),
            None => None,
        })),
{
    if !str_eq(o.manifest_hash.as_str(), f.manifest_hash.as_str()) {
        return Err(ApiError::conflict("hosted build outcome manifest changed"));
    }
    let run = match &o.pipeline_run {
        None => {
            let code = match &o.error_code {
                Some(c) => {
                    if is_bounded_code(c.as_str()) {
                        c
                    } else {
                        return Err(ApiError::bad_request("unavailable build observation requires a bounded error code"));
                    }
                },
                None => return Err(ApiError::bad_request("unavailable build observation requires a bounded error code")),
            };
            if o.analysis.is_some() {
                return Err(ApiError::bad_request("unavailable build observation cannot contain successful analysis"));
            }
            let side = if o.observe_only {
                "observer"
            } else {
                "executor"
            };
            let name = String::from_str("build_exception_").concat(o.execution_id.as_str()).concat("_").concat(side);
            return Ok(BuildOutcomeStep::Unconfirmed { artifact_name: name, error_code: code.as_str().to_owned() });
        },
        Some(run) => run,
    };
    if o.error_code.is_some() || f.run_size > 524288 {
        return Err(ApiError::bad_request("hosted build observation is contradictory or exceeds its evidence limit"));
    }
    let adm = match attempt {
        Some(a) => a,
        None => return Err(ApiError::conflict("observed PipelineRun has no admitted autonomous build")),
    };
    if !admission_matches(adm, o.manifest_hash.as_str()) {
        return Err(ApiError::conflict("hosted build admission differs from its original manifest"));
    }
    match &f.run_check {
        Err(m) => return Err(ApiError::conflict(m.as_str())),
        Ok(()) => {},
    }
    let status = build_status(run);
    if !str_eq(status, "submitted") {
        let analysis = match &o.analysis {
            Some(an) => an,
            None => return Err(ApiError::conflict("terminal hosted build requires its bounded PipelineRun analysis")),
        };
        proof {
            assert(path_view(seq!["pipeline_run", "uid"]) =~= seq!["pipeline_run"@, "uid"@]);
            assert(path_view(seq!["metadata", "uid"]) =~= seq!["metadata"@, "uid"@]);
        }
        if f.analysis_size > 524288 || !json_equal(&at_exec(analysis, &["pipeline_run", "uid"]), &at_exec(run, &["metadata", "uid"])) {
            return Err(ApiError::conflict("hosted build analysis belongs to a different PipelineRun or exceeds its evidence limit"));
        }
        if !results_match(analysis, run) {
            return Err(ApiError::conflict("hosted build analysis differs from the actual declared PipelineRun results"));
        }
        return Ok(BuildOutcomeStep::Record { status, receipt_id: terminal_id(o.execution_id.as_str()) });
    }
    if o.analysis.is_some() {
        return Err(ApiError::bad_request("a running PipelineRun cannot report terminal analysis"));
    }
    if f.terminal_recorded {
        return Ok(BuildOutcomeStep::Settle);
    }
    Ok(BuildOutcomeStep::Record { status, receipt_id: String::from_str("build_submitted_").concat(o.execution_id.as_str()) })
}

/// A delayed initial report cannot rewind a terminal build: once a terminal
/// receipt exists, no report leads to recording a submitted run.
pub proof fn lemma_late_report_never_rewinds(o: BuildOutcome, f: BuildReportFacts, attempt: Option<StoredArtifact>)
    requires
        f.terminal_recorded,
    ensures
        !(spec_build_verdict(o, f, attempt) matches BuildVerdict::Record(status, _) && status == "submitted"@),
{
}

/// Every recorded build observation is filed under the execution's terminal
/// receipt exactly when its run finished.
pub proof fn lemma_terminal_receipts_hold_finished_runs(o: BuildOutcome, f: BuildReportFacts, attempt: Option<StoredArtifact>)
    ensures
        spec_build_verdict(o, f, attempt) matches BuildVerdict::Record(status, id) ==> (status != "submitted"@ <==> id
            == "build_terminal_"@ + o.execution_id@),
{
    reveal_strlit("build_terminal_");
    reveal_strlit("build_submitted_");
    match spec_build_verdict(o, f, attempt) {
        BuildVerdict::Record(status, id) => {
            if status == "submitted"@ {
                assert(id == "build_submitted_"@ + o.execution_id@);
                assert(id[6] != ("build_terminal_"@ + o.execution_id@)[6]);
            }
        },
        _ => {},
    }
}

} // verus!
