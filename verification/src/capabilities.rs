//! Direct read-only capabilities: which agent actions may run directly, how
//! long they may take, and what evidence and audit summary a tool result
//! leaves behind.
use vstd::prelude::*;
use crate::error::{ApiError, ErrorKind};
use crate::json::{
    entries_view, get_str, get_str_at, obj_insert, opt_json_view, path_view, str_at, str_member,
    Json, JsonValue, lemma_object_view,
};
use crate::text::{decimal_u128, opt_text, spec_decimal, is_blank, spec_is_blank, spec_trim, spec_truncate_audit_text, str_eq, trim_str, truncate_audit_text};

verus! {

broadcast use vstd::std_specs::vec::group_vec_axioms;

/// The kind of an agent action, as far as direct execution cares.
#[derive(Clone, Copy, Debug, PartialEq, Eq, Structural)]
pub enum ActionKind {
    KubernetesGet,
    ArgoGetApp,
    PrometheusQuery,
    PrometheusInventory,
    LokiLogSummary,
    TektonGetPipelineRuns,
    TektonGetTaskRuns,
    TektonAnalyzePipelineRun,
    RegistryInspectImage,
    /// Any action that changes something or is not a plain read.
    Other,
}

/// An agent action: its kind, its kind name and its identifier.
pub struct AgentAction {
    pub kind: ActionKind,
    pub kind_name: String,
    pub id: String,
}

/// The outcome of one tool call: its status name, its summary line and its
/// JSON content.
pub struct ToolResult {
    pub status: String,
    pub summary: String,
    pub content: JsonValue,
}

pub open spec fn spec_is_direct_kind(k: ActionKind) -> bool {
    k != ActionKind::Other
}

/// Only the read-only inspection actions run through direct execution.
pub fn is_direct_capability_action(action: &AgentAction) -> (r: bool)
    ensures
        r == spec_is_direct_kind(action.kind),
{
    match action.kind {
        ActionKind::Other => false,
        _ => true,
    }
}

/// `requested` (or `default_ms` when absent) clamped into `1..=max_ms`.
pub open spec fn spec_direct_capability_timeout_ms(requested: Option<u64>, default_ms: u64, max_ms: u64) -> int {
    let t = match requested {
        Some(t) => t,
        None => default_ms,
    };
    if t < 1 {
        1
    } else if t > max_ms {
        max_ms as int
    } else {
        t as int
    }
}

/// The timeout of a direct capability call.
pub fn direct_capability_timeout_ms(requested: Option<u64>, default_ms: u64, max_ms: u64) -> (r: u64)
    requires
        1 <= max_ms,
    ensures
        r as int == spec_direct_capability_timeout_ms(requested, default_ms, max_ms),
        1 <= r <= max_ms,
{
    let t = match requested {
        Some(t) => t,
        None => default_ms,
    };
    if t < 1 {
        1
    } else if t > max_ms {
        max_ms
    } else {
        t
    }
}

/// The sources whose results are kept as evidence.
pub open spec fn spec_is_evidence_source(s: Seq<char>) -> bool {
    ||| s == "kubernetes"@
    ||| s == "argocd"@
    ||| s == "prometheus"@
    ||| s == "loki"@
    ||| s == "tekton"@
}

pub open spec fn spec_direct_evidence_source(content: Json) -> Option<Seq<char>> {
    match str_member(content, "source"@) {
        Some(s) => if spec_is_evidence_source(s) {
            Some(s)
        } else {
            None
        },
        None => None,
    }
}

/// The evidence source named by a tool result, when it is one that is kept.
pub fn direct_evidence_source(result: &ToolResult) -> (r: Option<&str>)
    ensures
        match r {
            Some(s) => spec_direct_evidence_source(result.content@) == Some(s@),
            None => spec_direct_evidence_source(result.content@) is None,
        },
{
    let source = match get_str(&result.content, "source") {
        Some(s) => s,
        None => return None,
    };
    if str_eq(source, "kubernetes") || str_eq(source, "argocd") || str_eq(source, "prometheus")
        || str_eq(source, "loki") || str_eq(source, "tekton") {
        Some(source)
    } else {
        None
    }
}

pub open spec fn spec_direct_artifact_kind(content: Json, source: Seq<char>) -> Seq<char> {
    if source == "tekton"@ && str_member(content, "resource"@) == Some("pipeline_run_analysis"@) {
        "pipeline_run_analysis"@
    } else {
        source + "_tool_result"@
    }
}

/// The artifact kind under which a tool result is stored.
pub fn direct_artifact_kind(content: &JsonValue, source: &str) -> (r: String)
    ensures
        r@ == spec_direct_artifact_kind(content@, source@),
{
    if str_eq(source, "tekton") {
        if let Some(resource) = get_str(content, "resource") {
            if str_eq(resource, "pipeline_run_analysis") {
                return String::from_str("pipeline_run_analysis");
            }
        }
    }
    String::from_str(source).concat("_tool_result")
}

pub open spec fn spec_direct_observation_kind(content: Json, source: Seq<char>) -> Seq<char> {
    match str_member(content, "resource"@) {
        Some(r) => r,
        None => match str_member(content, "action"@) {
            Some(a) => a,
            None => source + "_read"@,
        },
    }
}

/// The observation kind: the result's resource, else its action, else a read
/// of the source.
pub fn direct_observation_kind(content: &JsonValue, source: &str) -> (r: String)
    ensures
        r@ == spec_direct_observation_kind(content@, source@),
{
    match get_str(content, "resource") {
        Some(r) => r.to_owned(),
        None => match get_str(content, "action") {
            Some(a) => a.to_owned(),
            None => String::from_str(source).concat("_read"),
        },
    }
}

pub open spec fn run_path(leaf: Seq<char>) -> Seq<Seq<char>> {
    seq!["analysis"@, "pipeline_run"@, leaf]
}

/// The string at `analysis.pipeline_run.<leaf>`.
fn pipeline_run_text<'a>(content: &'a JsonValue, leaf: &str) -> (r: Option<&'a str>)
    ensures
        match r {
            Some(s) => str_at(content@, run_path(leaf@)) == Some(s@),
            None => str_at(content@, run_path(leaf@)) is None,
        },
{
    let path = ["analysis", "pipeline_run", leaf];
    proof {
        assert(path_view(path@) =~= run_path(leaf@));
    }
    get_str_at(content, &path)
}

pub open spec fn spec_direct_observation_subject(content: Json, source: Seq<char>, kind: Seq<char>) -> Seq<char> {
    let ns = str_at(content, run_path("namespace"@));
    let name = str_at(content, run_path("name"@));
    if source == "tekton"@ && kind == "pipeline_run_analysis"@ && ns is Some && name is Some {
        ns->0 + "/"@ + name->0
    } else if str_member(content, "query"@) is Some {
        str_member(content, "query"@)->0
    } else if str_member(content, "name"@) is Some {
        str_member(content, "name"@)->0
    } else if str_member(content, "namespace"@) is Some {
        str_member(content, "namespace"@)->0 + "/"@ + kind
    } else {
        source + "/"@ + kind
    }
}

/// The subject an observation is about.
pub fn direct_observation_subject(content: &JsonValue, source: &str, kind: &str) -> (r: String)
    ensures
        r@ == spec_direct_observation_subject(content@, source@, kind@),
{
    if str_eq(source, "tekton") && str_eq(kind, "pipeline_run_analysis") {
        let ns = pipeline_run_text(content, "namespace");
        let name = pipeline_run_text(content, "name");
        if let (Some(ns), Some(name)) = (ns, name) {
            return String::from_str(ns).concat("/").concat(name);
        }
    }
    if let Some(query) = get_str(content, "query") {
        return query.to_owned();
    }
    if let Some(name) = get_str(content, "name") {
        return name.to_owned();
    }
    if let Some(namespace) = get_str(content, "namespace") {
        return String::from_str(namespace).concat("/").concat(kind);
    }
    String::from_str(source).concat("/").concat(kind)
}

pub open spec fn opt_as_str(v: Option<Json>) -> Option<Seq<char>> {
    match v {
        Some(j) => j.as_str(),
        None => None,
    }
}

/// The first candidate that is a string with something besides whitespace,
/// trimmed.
pub open spec fn spec_first_direct_string(values: Seq<Option<Json>>) -> Option<Seq<char>>
    decreases values.len(),
{
    if values.len() == 0 {
        None
    } else {
        match opt_as_str(values[0]) {
            Some(s) => if !spec_is_blank(s) {
                Some(spec_trim(s))
            } else {
                spec_first_direct_string(values.drop_first())
            },
            None => spec_first_direct_string(values.drop_first()),
        }
    }
}

pub open spec fn candidates_view(values: Seq<Option<&JsonValue>>) -> Seq<Option<Json>> {
    values.map_values(|v: Option<&JsonValue>| opt_json_view(v))
}

/// The first of `values` that is a non-blank string, trimmed.
pub fn first_direct_string(values: &[Option<&JsonValue>]) -> (r: Option<String>)
    ensures
        match r {
            Some(s) => spec_first_direct_string(candidates_view(values@)) == Some(s@),
            None => spec_first_direct_string(candidates_view(values@)) is None,
        },
{
    let n = values.len();
    let ghost all = candidates_view(values@);
    let mut i: usize = 0;
    proof {
        assert(all.subrange(0, n as int) =~= all);
    }
    while i < n
        invariant
            n == values@.len(),
            all == candidates_view(values@),
            i <= n,
            spec_first_direct_string(all) == spec_first_direct_string(all.subrange(i as int, n as int)),
        decreases n - i,
    {
        let ghost rest = all.subrange(i as int, n as int);
        proof {
            assert(rest[0] == opt_json_view(values@[i as int]));
            assert(rest.drop_first() =~= all.subrange(i + 1, n as int));
        }
        let candidate = match values[i] {
            Some(v) => v.as_str(),
            None => None,
        };
        if let Some(s) = candidate {
            if !is_blank(s) {
                return Some(trim_str(s).to_owned());
            }
        }
        i = i + 1;
    }
    proof {
        assert(all.subrange(n as int, n as int) =~= Seq::<Option<Json>>::empty());
    }
    None
}

/// A path given as its segments.
pub open spec fn seg1(a: Seq<char>) -> Seq<Seq<char>> {
    seq![a]
}

pub open spec fn seg2(a: Seq<char>, b: Seq<char>) -> Seq<Seq<char>> {
    seq![a, b]
}

pub open spec fn seg3(a: Seq<char>, b: Seq<char>, c: Seq<char>) -> Seq<Seq<char>> {
    seq![a, b, c]
}

fn at1<'a>(v: &'a JsonValue, a: &str) -> (r: Option<&'a JsonValue>)
    ensures
        opt_json_view(r) == v@.pointer(seg1(a@)),
{
    let path = [a];
    proof {
        assert(path_view(path@) =~= seg1(a@));
    }
    v.pointer(&path)
}

fn at2<'a>(v: &'a JsonValue, a: &str, b: &str) -> (r: Option<&'a JsonValue>)
    ensures
        opt_json_view(r) == v@.pointer(seg2(a@, b@)),
{
    let path = [a, b];
    proof {
        assert(path_view(path@) =~= seg2(a@, b@));
    }
    v.pointer(&path)
}

fn at3<'a>(v: &'a JsonValue, a: &str, b: &str, c: &str) -> (r: Option<&'a JsonValue>)
    ensures
        opt_json_view(r) == v@.pointer(seg3(a@, b@, c@)),
{
    let path = [a, b, c];
    proof {
        assert(path_view(path@) =~= seg3(a@, b@, c@));
    }
    v.pointer(&path)
}

pub open spec fn spec_direct_observation_namespace(content: Json) -> Option<Seq<char>> {
    spec_first_direct_string(
        seq![
            content.pointer(seg1("namespace"@)),
            content.pointer(seg3("output"@, "metadata"@, "namespace"@)),
            content.pointer(seg3("analysis"@, "pipeline_run"@, "namespace"@)),
        ],
    )
}

/// The namespace of the observed resource, from the first place that names one.
pub fn direct_observation_namespace(content: &JsonValue) -> (r: Option<String>)
    ensures
        match r {
            Some(s) => spec_direct_observation_namespace(content@) == Some(s@),
            None => spec_direct_observation_namespace(content@) is None,
        },
{
    let values = [
        at1(content, "namespace"),
        at3(content, "output", "metadata", "namespace"),
        at3(content, "analysis", "pipeline_run", "namespace"),
    ];
    proof {
        assert(candidates_view(values@) =~= seq![
            content@.pointer(seg1("namespace"@)),
            content@.pointer(seg3("output"@, "metadata"@, "namespace"@)),
            content@.pointer(seg3("analysis"@, "pipeline_run"@, "namespace"@)),
        ]);
    }
    first_direct_string(&values)
}

pub open spec fn spec_kind_fallback(source: Seq<char>, kind: Seq<char>) -> Option<Seq<char>> {
    if source == "argocd"@ {
        Some("Application"@)
    } else if source == "prometheus"@ && kind == "inventory"@ {
        Some("inventory"@)
    } else if source == "prometheus"@ {
        Some("query"@)
    } else if source == "loki"@ && kind == "log_summary"@ {
        Some("log_summary"@)
    } else if !spec_is_blank(kind) {
        Some(kind)
    } else {
        None
    }
}

pub open spec fn spec_direct_observation_resource_kind(content: Json, source: Seq<char>, kind: Seq<char>) -> Option<Seq<char>> {
    let output_kind = str_at(content, seg2("output"@, "kind"@));
    if output_kind is Some && output_kind->0 != "List"@ {
        output_kind
    } else if source == "tekton"@ && kind == "pipeline_run_analysis"@ {
        Some("PipelineRun"@)
    } else {
        match spec_first_direct_string(
            seq![
                content.pointer(seg3("analysis"@, "pipeline_run"@, "kind"@)),
                content.pointer(seg1("resource"@)),
            ],
        ) {
            Some(s) => Some(s),
            None => spec_kind_fallback(source, kind),
        }
    }
}

fn kind_fallback(source: &str, kind: &str) -> (r: Option<String>)
    ensures
        match r {
            Some(s) => spec_kind_fallback(source@, kind@) == Some(s@),
            None => spec_kind_fallback(source@, kind@) is None,
        },
{
    if str_eq(source, "argocd") {
        Some(String::from_str("Application"))
    } else if str_eq(source, "prometheus") && str_eq(kind, "inventory") {
        Some(String::from_str("inventory"))
    } else if str_eq(source, "prometheus") {
        Some(String::from_str("query"))
    } else if str_eq(source, "loki") && str_eq(kind, "log_summary") {
        Some(String::from_str("log_summary"))
    } else if !is_blank(kind) {
        Some(kind.to_owned())
    } else {
        None
    }
}

/// The kind of the observed resource.
pub fn direct_observation_resource_kind(content: &JsonValue, source: &str, kind: &str) -> (r: Option<String>)
    ensures
        match r {
            Some(s) => spec_direct_observation_resource_kind(content@, source@, kind@) == Some(s@),
            None => spec_direct_observation_resource_kind(content@, source@, kind@) is None,
        },
{
    let output_kind = match at2(content, "output", "kind") {
        Some(v) => v.as_str(),
        None => None,
    };
    if let Some(k) = output_kind {
        if !str_eq(k, "List") {
            return Some(k.to_owned());
        }
    }
    if str_eq(source, "tekton") && str_eq(kind, "pipeline_run_analysis") {
        return Some(String::from_str("PipelineRun"));
    }
    let values = [at3(content, "analysis", "pipeline_run", "kind"), at1(content, "resource")];
    proof {
        assert(candidates_view(values@) =~= seq![
            content@.pointer(seg3("analysis"@, "pipeline_run"@, "kind"@)),
            content@.pointer(seg1("resource"@)),
        ]);
    }
    match first_direct_string(&values) {
        Some(s) => Some(s),
        None => kind_fallback(source, kind),
    }
}

/// Whether the text holds the character `c`.
pub fn contains_char(s: &str, c: char) -> (r: bool)
    ensures
        r == s@.contains(c),
{
    let n = s.unicode_len();
    let mut i: usize = 0;
    while i < n
        invariant
            n == s@.len(),
            i <= n,
            forall|j: int| 0 <= j < i ==> s@[j] != c,
        decreases n - i,
    {
        if s.get_char(i) == c {
            proof {
                assert(s@[i as int] == c);
            }
            return true;
        }
        i = i + 1;
    }
    false
}

pub open spec fn spec_name_fallback(source: Seq<char>, kind: Seq<char>, subject: Seq<char>) -> Option<Seq<char>> {
    if source == "prometheus"@ && kind == "inventory"@ {
        Some("inventory"@)
    } else if source == "loki"@ && kind == "log_summary"@ {
        Some("log_summary"@)
    } else if !spec_is_blank(subject) && !subject.contains('/') {
        Some(subject)
    } else {
        None
    }
}

pub open spec fn spec_direct_observation_resource_name(
    content: Json,
    source: Seq<char>,
    kind: Seq<char>,
    subject: Seq<char>,
) -> Option<Seq<char>> {
    match spec_first_direct_string(
        seq![
            content.pointer(seg1("name"@)),
            content.pointer(seg3("output"@, "metadata"@, "name"@)),
            content.pointer(seg3("analysis"@, "pipeline_run"@, "name"@)),
        ],
    ) {
        Some(s) => Some(s),
        None => spec_name_fallback(source, kind, subject),
    }
}

/// The name of the observed resource.
pub fn direct_observation_resource_name(content: &JsonValue, source: &str, kind: &str, subject: &str) -> (r: Option<String>)
    ensures
        match r {
            Some(s) => spec_direct_observation_resource_name(content@, source@, kind@, subject@) == Some(s@),
            None => spec_direct_observation_resource_name(content@, source@, kind@, subject@) is None,
        },
{
    let values = [
        at1(content, "name"),
        at3(content, "output", "metadata", "name"),
        at3(content, "analysis", "pipeline_run", "name"),
    ];
    proof {
        assert(candidates_view(values@) =~= seq![
            content@.pointer(seg1("name"@)),
            content@.pointer(seg3("output"@, "metadata"@, "name"@)),
            content@.pointer(seg3("analysis"@, "pipeline_run"@, "name"@)),
        ]);
    }
    if let Some(s) = first_direct_string(&values) {
        return Some(s);
    }
    if str_eq(source, "prometheus") && str_eq(kind, "inventory") {
        Some(String::from_str("inventory"))
    } else if str_eq(source, "loki") && str_eq(kind, "log_summary") {
        Some(String::from_str("log_summary"))
    } else if !is_blank(subject) && !contains_char(subject, '/') {
        Some(subject.to_owned())
    } else {
        None
    }
}

pub open spec fn spec_direct_observation_resource_ref(
    action_name: Seq<char>,
    source: Seq<char>,
    kind: Seq<char>,
    subject: Seq<char>,
) -> Json {
    Json::Object(
        seq![
            ("source"@, Json::Str(source)),
            ("kind"@, Json::Str(kind)),
            ("name"@, Json::Str(subject)),
            ("metadata"@, Json::Object(
                seq![("capability"@, Json::Str(action_name)), ("direct"@, Json::Bool(true))],
            )),
        ],
    )
}

/// The reference an observation keeps to the capability that produced it.
pub fn direct_observation_resource_ref(action_name: &str, source: &str, kind: &str, subject: &str) -> (r: JsonValue)
    ensures
        r@ == spec_direct_observation_resource_ref(action_name@, source@, kind@, subject@),
{
    let mut metadata: Vec<(String, JsonValue)> = Vec::new();
    obj_insert(&mut metadata, "capability", JsonValue::Str(action_name.to_owned()));
    obj_insert(&mut metadata, "direct", JsonValue::Bool(true));
    let mut entries: Vec<(String, JsonValue)> = Vec::new();
    obj_insert(&mut entries, "source", JsonValue::Str(source.to_owned()));
    obj_insert(&mut entries, "kind", JsonValue::Str(kind.to_owned()));
    obj_insert(&mut entries, "name", JsonValue::Str(subject.to_owned()));
    proof {
        lemma_object_view(metadata);
        assert(entries_view(metadata@) =~= seq![("capability"@, Json::Str(action_name@)), ("direct"@, Json::Bool(true))]);
    }
    obj_insert(&mut entries, "metadata", JsonValue::Object(metadata));
    proof {
        lemma_object_view(entries);
        assert(entries_view(entries@) =~= spec_direct_observation_resource_ref(action_name@, source@, kind@, subject@)->Object_0);
    }
    JsonValue::Object(entries)
}

pub open spec fn seg4(a: Seq<char>, b: Seq<char>, c: Seq<char>, d: Seq<char>) -> Seq<Seq<char>> {
    seq![a, b, c, d]
}

/// A selection table: output key and the path it is read from.
pub open spec fn selection_view(ps: Seq<(&str, &[&str])>) -> Seq<(Seq<char>, Seq<Seq<char>>)> {
    ps.map_values(|p: (&str, &[&str])| (p.0@, path_view(p.1@)))
}

/// The entries `(key, value at path)` for each row of the table whose path
/// leads somewhere, in table order.
pub open spec fn spec_select_paths(content: Json, ps: Seq<(Seq<char>, Seq<Seq<char>>)>) -> Seq<(Seq<char>, Json)>
    decreases ps.len(),
{
    if ps.len() == 0 {
        Seq::empty()
    } else {
        let prev = spec_select_paths(content, ps.drop_last());
        match content.pointer(ps.last().1) {
            Some(v) => prev.push((ps.last().0, v)),
            None => prev,
        }
    }
}

/// Entries with `key = value` appended when a value is given.
pub open spec fn opt_push(es: Seq<(Seq<char>, Json)>, key: Seq<char>, v: Option<Json>) -> Seq<(Seq<char>, Json)> {
    match v {
        Some(j) => es.push((key, j)),
        None => es,
    }
}

/// Entries with `key = {sel}` appended when `sel` has any entry.
pub open spec fn push_nonempty(es: Seq<(Seq<char>, Json)>, key: Seq<char>, sel: Seq<(Seq<char>, Json)>) -> Seq<(Seq<char>, Json)> {
    if sel.len() == 0 {
        es
    } else {
        es.push((key, Json::Object(sel)))
    }
}

/// Copy the value found at each path of the table under its key.
pub fn select_json_paths(source: &JsonValue, paths: &[(&str, &[&str])]) -> (r: Vec<(String, JsonValue)>)
    ensures
        entries_view(r@) == spec_select_paths(source@, selection_view(paths@)),
{
    let n = paths.len();
    let ghost all = selection_view(paths@);
    let mut selected: Vec<(String, JsonValue)> = Vec::new();
    let mut i: usize = 0;
    proof {
        assert(entries_view(selected@) =~= Seq::<(Seq<char>, Json)>::empty());
        assert(all.subrange(0, 0) =~= Seq::<(Seq<char>, Seq<Seq<char>>)>::empty());
    }
    while i < n
        invariant
            n == paths@.len(),
            all == selection_view(paths@),
            i <= n,
            entries_view(selected@) == spec_select_paths(source@, all.subrange(0, i as int)),
        decreases n - i,
    {
        let (key, pointer) = paths[i];
        proof {
            let pre = all.subrange(0, i + 1);
            assert(pre.drop_last() =~= all.subrange(0, i as int));
            assert(pre.last() == (key@, path_view(pointer@)));
        }
        insert_cloned(&mut selected, key, source.pointer(pointer));
        i = i + 1;
    }
    proof {
        assert(all.subrange(0, n as int) =~= all);
    }
    selected
}

/// Add `key = value` to an object under construction when there is a value.
pub fn insert_cloned(target: &mut Vec<(String, JsonValue)>, key: &str, value: Option<&JsonValue>)
    ensures
        entries_view(final(target)@) == opt_push(entries_view(old(target)@), key@, opt_json_view(value)),
{
    if let Some(value) = value {
        obj_insert(target, key, value.duplicate());
    }
}

/// Add `key = {value}` to an object under construction when `value` has any
/// entry.
pub fn insert_object_if_not_empty(target: &mut Vec<(String, JsonValue)>, key: &str, value: Vec<(String, JsonValue)>)
    ensures
        entries_view(final(target)@) == push_nonempty(entries_view(old(target)@), key@, entries_view(value@)),
{
    if value.len() > 0 {
        proof {
            lemma_object_view(value);
        }
        obj_insert(target, key, JsonValue::Object(value));
    } else {
        proof {
            assert(entries_view(value@) =~= Seq::<(Seq<char>, Json)>::empty());
        }
    }
}

/// Rows selecting the known top-level members of the content.
pub open spec fn data_fields() -> Seq<(Seq<char>, Seq<Seq<char>>)> {
    seq![
        ("source"@, seq!["source"@]),
        ("resource"@, seq!["resource"@]),
        ("namespace"@, seq!["namespace"@]),
        ("name"@, seq!["name"@]),
        ("query"@, seq!["query"@]),
        ("output"@, seq!["output"@]),
        ("response"@, seq!["response"@]),
        ("inventory"@, seq!["inventory"@]),
        ("analysis"@, seq!["analysis"@]),
    ]
}

fn data_selection(content: &JsonValue) -> (r: Vec<(String, JsonValue)>)
    ensures
        entries_view(r@) == spec_select_paths(content@, data_fields()),
{
    let paths: [(&str, &[&str]); 9] = [
        ("source", &["source"]),
        ("resource", &["resource"]),
        ("namespace", &["namespace"]),
        ("name", &["name"]),
        ("query", &["query"]),
        ("output", &["output"]),
        ("response", &["response"]),
        ("inventory", &["inventory"]),
        ("analysis", &["analysis"]),
    ];
    proof {
        assert(paths@[0].1@ =~= seq!["source"]);
        assert(path_view(paths@[0].1@) =~= data_fields()[0].1);
        assert(selection_view(paths@)[0] == data_fields()[0]);
        assert(paths@[1].1@ =~= seq!["resource"]);
        assert(path_view(paths@[1].1@) =~= data_fields()[1].1);
        assert(selection_view(paths@)[1] == data_fields()[1]);
        assert(paths@[2].1@ =~= seq!["namespace"]);
        assert(path_view(paths@[2].1@) =~= data_fields()[2].1);
        assert(selection_view(paths@)[2] == data_fields()[2]);
        assert(paths@[3].1@ =~= seq!["name"]);
        assert(path_view(paths@[3].1@) =~= data_fields()[3].1);
        assert(selection_view(paths@)[3] == data_fields()[3]);
        assert(paths@[4].1@ =~= seq!["query"]);
        assert(path_view(paths@[4].1@) =~= data_fields()[4].1);
        assert(selection_view(paths@)[4] == data_fields()[4]);
        assert(paths@[5].1@ =~= seq!["output"]);
        assert(path_view(paths@[5].1@) =~= data_fields()[5].1);
        assert(selection_view(paths@)[5] == data_fields()[5]);
        assert(paths@[6].1@ =~= seq!["response"]);
        assert(path_view(paths@[6].1@) =~= data_fields()[6].1);
        assert(selection_view(paths@)[6] == data_fields()[6]);
        assert(paths@[7].1@ =~= seq!["inventory"]);
        assert(path_view(paths@[7].1@) =~= data_fields()[7].1);
        assert(selection_view(paths@)[7] == data_fields()[7]);
        assert(paths@[8].1@ =~= seq!["analysis"]);
        assert(path_view(paths@[8].1@) =~= data_fields()[8].1);
        assert(selection_view(paths@)[8] == data_fields()[8]);
        assert(selection_view(paths@) =~= data_fields());
    }
    select_json_paths(content, &paths)
}

/// Rows selecting the shape of a Kubernetes read.
pub open spec fn output_fields() -> Seq<(Seq<char>, Seq<Seq<char>>)> {
    seq![
        ("kind"@, seq!["output"@, "kind"@]),
        ("name"@, seq!["output"@, "metadata"@, "name"@]),
        ("namespace"@, seq!["output"@, "metadata"@, "namespace"@]),
        ("item_count"@, seq!["output"@, "item_count"@]),
    ]
}

fn output_selection(content: &JsonValue) -> (r: Vec<(String, JsonValue)>)
    ensures
        entries_view(r@) == spec_select_paths(content@, output_fields()),
{
    let paths: [(&str, &[&str]); 4] = [
        ("kind", &["output", "kind"]),
        ("name", &["output", "metadata", "name"]),
        ("namespace", &["output", "metadata", "namespace"]),
        ("item_count", &["output", "item_count"]),
    ];
    proof {
        assert(paths@[0].1@ =~= seq!["output", "kind"]);
        assert(path_view(paths@[0].1@) =~= output_fields()[0].1);
        assert(selection_view(paths@)[0] == output_fields()[0]);
        assert(paths@[1].1@ =~= seq!["output", "metadata", "name"]);
        assert(path_view(paths@[1].1@) =~= output_fields()[1].1);
        assert(selection_view(paths@)[1] == output_fields()[1]);
        assert(paths@[2].1@ =~= seq!["output", "metadata", "namespace"]);
        assert(path_view(paths@[2].1@) =~= output_fields()[2].1);
        assert(selection_view(paths@)[2] == output_fields()[2]);
        assert(paths@[3].1@ =~= seq!["output", "item_count"]);
        assert(path_view(paths@[3].1@) =~= output_fields()[3].1);
        assert(selection_view(paths@)[3] == output_fields()[3]);
        assert(selection_view(paths@) =~= output_fields());
    }
    select_json_paths(content, &paths)
}

/// Rows selecting the size of a query response.
pub open spec fn response_fields() -> Seq<(Seq<char>, Seq<Seq<char>>)> {
    seq![
        ("result_count"@, seq!["response"@, "data"@, "result_count"@]),
        ("results_truncated"@, seq!["response"@, "data"@, "results_truncated"@]),
        ("stream_count"@, seq!["response"@, "data"@, "stream_count"@]),
        ("streams_truncated"@, seq!["response"@, "data"@, "streams_truncated"@]),
        ("entry_count"@, seq!["response"@, "data"@, "entry_count"@]),
        ("entries_truncated"@, seq!["response"@, "data"@, "entries_truncated"@]),
    ]
}

fn response_selection(content: &JsonValue) -> (r: Vec<(String, JsonValue)>)
    ensures
        entries_view(r@) == spec_select_paths(content@, response_fields()),
{
    let paths: [(&str, &[&str]); 6] = [
        ("result_count", &["response", "data", "result_count"]),
        ("results_truncated", &["response", "data", "results_truncated"]),
        ("stream_count", &["response", "data", "stream_count"]),
        ("streams_truncated", &["response", "data", "streams_truncated"]),
        ("entry_count", &["response", "data", "entry_count"]),
        ("entries_truncated", &["response", "data", "entries_truncated"]),
    ];
    proof {
        assert(paths@[0].1@ =~= seq!["response", "data", "result_count"]);
        assert(path_view(paths@[0].1@) =~= response_fields()[0].1);
        assert(selection_view(paths@)[0] == response_fields()[0]);
        assert(paths@[1].1@ =~= seq!["response", "data", "results_truncated"]);
        assert(path_view(paths@[1].1@) =~= response_fields()[1].1);
        assert(selection_view(paths@)[1] == response_fields()[1]);
        assert(paths@[2].1@ =~= seq!["response", "data", "stream_count"]);
        assert(path_view(paths@[2].1@) =~= response_fields()[2].1);
        assert(selection_view(paths@)[2] == response_fields()[2]);
        assert(paths@[3].1@ =~= seq!["response", "data", "streams_truncated"]);
        assert(path_view(paths@[3].1@) =~= response_fields()[3].1);
        assert(selection_view(paths@)[3] == response_fields()[3]);
        assert(paths@[4].1@ =~= seq!["response", "data", "entry_count"]);
        assert(path_view(paths@[4].1@) =~= response_fields()[4].1);
        assert(selection_view(paths@)[4] == response_fields()[4]);
        assert(paths@[5].1@ =~= seq!["response", "data", "entries_truncated"]);
        assert(path_view(paths@[5].1@) =~= response_fields()[5].1);
        assert(selection_view(paths@)[5] == response_fields()[5]);
        assert(selection_view(paths@) =~= response_fields());
    }
    select_json_paths(content, &paths)
}

/// Rows selecting the counts of a monitoring inventory.
pub open spec fn inventory_fields() -> Seq<(Seq<char>, Seq<Seq<char>>)> {
    seq![
        ("active_targets"@, seq!["inventory"@, "targets"@, "active_count"@]),
        ("unhealthy_targets"@, seq!["inventory"@, "targets"@, "unhealthy_count"@]),
        ("rules"@, seq!["inventory"@, "rules"@, "rule_count"@]),
        ("problem_rules"@, seq!["inventory"@, "rules"@, "problem_rule_count"@]),
        ("alerts"@, seq!["inventory"@, "alerts"@, "alert_count"@]),
    ]
}

fn inventory_selection(content: &JsonValue) -> (r: Vec<(String, JsonValue)>)
    ensures
        entries_view(r@) == spec_select_paths(content@, inventory_fields()),
{
    let paths: [(&str, &[&str]); 5] = [
        ("active_targets", &["inventory", "targets", "active_count"]),
        ("unhealthy_targets", &["inventory", "targets", "unhealthy_count"]),
        ("rules", &["inventory", "rules", "rule_count"]),
        ("problem_rules", &["inventory", "rules", "problem_rule_count"]),
        ("alerts", &["inventory", "alerts", "alert_count"]),
    ];
    proof {
        assert(paths@[0].1@ =~= seq!["inventory", "targets", "active_count"]);
        assert(path_view(paths@[0].1@) =~= inventory_fields()[0].1);
        assert(selection_view(paths@)[0] == inventory_fields()[0]);
        assert(paths@[1].1@ =~= seq!["inventory", "targets", "unhealthy_count"]);
        assert(path_view(paths@[1].1@) =~= inventory_fields()[1].1);
        assert(selection_view(paths@)[1] == inventory_fields()[1]);
        assert(paths@[2].1@ =~= seq!["inventory", "rules", "rule_count"]);
        assert(path_view(paths@[2].1@) =~= inventory_fields()[2].1);
        assert(selection_view(paths@)[2] == inventory_fields()[2]);
        assert(paths@[3].1@ =~= seq!["inventory", "rules", "problem_rule_count"]);
        assert(path_view(paths@[3].1@) =~= inventory_fields()[3].1);
        assert(selection_view(paths@)[3] == inventory_fields()[3]);
        assert(paths@[4].1@ =~= seq!["inventory", "alerts", "alert_count"]);
        assert(path_view(paths@[4].1@) =~= inventory_fields()[4].1);
        assert(selection_view(paths@)[4] == inventory_fields()[4]);
        assert(selection_view(paths@) =~= inventory_fields());
    }
    select_json_paths(content, &paths)
}

/// Rows selecting the verdicts of a pipeline run analysis.
pub open spec fn analysis_fields() -> Seq<(Seq<char>, Seq<Seq<char>>)> {
    seq![
        ("status"@, seq!["analysis"@, "summary"@, "status"@]),
        ("task_run_count"@, seq!["analysis"@, "summary"@, "task_run_count"@]),
        ("succeeded_task_runs"@, seq!["analysis"@, "summary"@, "succeeded_task_runs"@]),
        ("failed_task_runs"@, seq!["analysis"@, "summary"@, "failed_task_runs"@]),
        ("deployment_status"@, seq!["analysis"@, "deployment"@, "status"@]),
        ("argo_sync_status"@, seq!["analysis"@, "argo_application"@, "sync_status"@]),
        ("argo_health_status"@, seq!["analysis"@, "argo_application"@, "health_status"@]),
        ("image_alignment_status"@, seq!["analysis"@, "summary"@, "image_alignment"@, "status"@]),
    ]
}

fn analysis_selection(content: &JsonValue) -> (r: Vec<(String, JsonValue)>)
    ensures
        entries_view(r@) == spec_select_paths(content@, analysis_fields()),
{
    let paths: [(&str, &[&str]); 8] = [
        ("status", &["analysis", "summary", "status"]),
        ("task_run_count", &["analysis", "summary", "task_run_count"]),
        ("succeeded_task_runs", &["analysis", "summary", "succeeded_task_runs"]),
        ("failed_task_runs", &["analysis", "summary", "failed_task_runs"]),
        ("deployment_status", &["analysis", "deployment", "status"]),
        ("argo_sync_status", &["analysis", "argo_application", "sync_status"]),
        ("argo_health_status", &["analysis", "argo_application", "health_status"]),
        ("image_alignment_status", &["analysis", "summary", "image_alignment", "status"]),
    ];
    proof {
        assert(paths@[0].1@ =~= seq!["analysis", "summary", "status"]);
        assert(path_view(paths@[0].1@) =~= analysis_fields()[0].1);
        assert(selection_view(paths@)[0] == analysis_fields()[0]);
        assert(paths@[1].1@ =~= seq!["analysis", "summary", "task_run_count"]);
        assert(path_view(paths@[1].1@) =~= analysis_fields()[1].1);
        assert(selection_view(paths@)[1] == analysis_fields()[1]);
        assert(paths@[2].1@ =~= seq!["analysis", "summary", "succeeded_task_runs"]);
        assert(path_view(paths@[2].1@) =~= analysis_fields()[2].1);
        assert(selection_view(paths@)[2] == analysis_fields()[2]);
        assert(paths@[3].1@ =~= seq!["analysis", "summary", "failed_task_runs"]);
        assert(path_view(paths@[3].1@) =~= analysis_fields()[3].1);
        assert(selection_view(paths@)[3] == analysis_fields()[3]);
        assert(paths@[4].1@ =~= seq!["analysis", "deployment", "status"]);
        assert(path_view(paths@[4].1@) =~= analysis_fields()[4].1);
        assert(selection_view(paths@)[4] == analysis_fields()[4]);
        assert(paths@[5].1@ =~= seq!["analysis", "argo_application", "sync_status"]);
        assert(path_view(paths@[5].1@) =~= analysis_fields()[5].1);
        assert(selection_view(paths@)[5] == analysis_fields()[5]);
        assert(paths@[6].1@ =~= seq!["analysis", "argo_application", "health_status"]);
        assert(path_view(paths@[6].1@) =~= analysis_fields()[6].1);
        assert(selection_view(paths@)[6] == analysis_fields()[6]);
        assert(paths@[7].1@ =~= seq!["analysis", "summary", "image_alignment", "status"]);
        assert(path_view(paths@[7].1@) =~= analysis_fields()[7].1);
        assert(selection_view(paths@)[7] == analysis_fields()[7]);
        assert(selection_view(paths@) =~= analysis_fields());
    }
    select_json_paths(content, &paths)
}

/// Rows selecting the identity and probe of an inspected image.
pub open spec fn image_fields() -> Seq<(Seq<char>, Seq<Seq<char>>)> {
    seq![
        ("registry"@, seq!["image"@, "registry"@]),
        ("repository"@, seq!["image"@, "repository"@]),
        ("tag"@, seq!["image"@, "tag"@]),
        ("digest"@, seq!["image"@, "digest"@]),
        ("verification_status"@, seq!["verification_status"@]),
        ("probe_status"@, seq!["probe"@, "status"@]),
        ("probe_accessible"@, seq!["probe"@, "accessible"@]),
        ("probe_digest"@, seq!["probe"@, "digest"@]),
    ]
}

fn image_selection(content: &JsonValue) -> (r: Vec<(String, JsonValue)>)
    ensures
        entries_view(r@) == spec_select_paths(content@, image_fields()),
{
    let paths: [(&str, &[&str]); 8] = [
        ("registry", &["image", "registry"]),
        ("repository", &["image", "repository"]),
        ("tag", &["image", "tag"]),
        ("digest", &["image", "digest"]),
        ("verification_status", &["verification_status"]),
        ("probe_status", &["probe", "status"]),
        ("probe_accessible", &["probe", "accessible"]),
        ("probe_digest", &["probe", "digest"]),
    ];
    proof {
        assert(paths@[0].1@ =~= seq!["image", "registry"]);
        assert(path_view(paths@[0].1@) =~= image_fields()[0].1);
        assert(selection_view(paths@)[0] == image_fields()[0]);
        assert(paths@[1].1@ =~= seq!["image", "repository"]);
        assert(path_view(paths@[1].1@) =~= image_fields()[1].1);
        assert(selection_view(paths@)[1] == image_fields()[1]);
        assert(paths@[2].1@ =~= seq!["image", "tag"]);
        assert(path_view(paths@[2].1@) =~= image_fields()[2].1);
        assert(selection_view(paths@)[2] == image_fields()[2]);
        assert(paths@[3].1@ =~= seq!["image", "digest"]);
        assert(path_view(paths@[3].1@) =~= image_fields()[3].1);
        assert(selection_view(paths@)[3] == image_fields()[3]);
        assert(paths@[4].1@ =~= seq!["verification_status"]);
        assert(path_view(paths@[4].1@) =~= image_fields()[4].1);
        assert(selection_view(paths@)[4] == image_fields()[4]);
        assert(paths@[5].1@ =~= seq!["probe", "status"]);
        assert(path_view(paths@[5].1@) =~= image_fields()[5].1);
        assert(selection_view(paths@)[5] == image_fields()[5]);
        assert(paths@[6].1@ =~= seq!["probe", "accessible"]);
        assert(path_view(paths@[6].1@) =~= image_fields()[6].1);
        assert(selection_view(paths@)[6] == image_fields()[6]);
        assert(paths@[7].1@ =~= seq!["probe", "digest"]);
        assert(path_view(paths@[7].1@) =~= image_fields()[7].1);
        assert(selection_view(paths@)[7] == image_fields()[7]);
        assert(selection_view(paths@) =~= image_fields());
    }
    select_json_paths(content, &paths)
}

/// The data an observation keeps: the known top-level members of the content.
pub fn direct_observation_data(content: &JsonValue) -> (r: JsonValue)
    ensures
        r@ == Json::Object(spec_select_paths(content@, data_fields())),
{
    let data = data_selection(content);
    proof {
        lemma_object_view(data);
    }
    JsonValue::Object(data)
}

/// The audit summary of a tool result.
pub open spec fn spec_result_summary_entries(status: Seq<char>, summary: Seq<char>, c: Json) -> Seq<(Seq<char>, Json)> {
    let e0 = seq![
        ("tool_status"@, Json::Str(status)),
        ("summary"@, Json::Str(spec_truncate_audit_text(summary, 256))),
    ];
    let e1 = opt_push(e0, "source"@, c.get("source"@));
    let e2 = opt_push(e1, "resource"@, c.get("resource"@));
    let e3 = opt_push(e2, "stdout_truncated"@, c.get("stdout_truncated"@));
    let e4 = push_nonempty(e3, "output"@, spec_select_paths(c, output_fields()));
    let e5 = push_nonempty(e4, "response"@, spec_select_paths(c, response_fields()));
    let e6 = push_nonempty(e5, "inventory"@, spec_select_paths(c, inventory_fields()));
    let e7 = push_nonempty(e6, "analysis"@, spec_select_paths(c, analysis_fields()));
    push_nonempty(e7, "image"@, spec_select_paths(c, image_fields()))
}

pub open spec fn spec_result_summary(r: ToolResult) -> Json {
    Json::Object(spec_result_summary_entries(r.status@, r.summary@, r.content@))
}

/// The bounded summary of a tool result kept in the audit log: status, a
/// truncated summary line, a few identifying members and the counts and
/// verdicts of each known section.
pub fn direct_capability_result_summary(result: &ToolResult) -> (r: JsonValue)
    ensures
        r@ == spec_result_summary(*result),
{
    let c = &result.content;
    let mut summary: Vec<(String, JsonValue)> = Vec::new();
    obj_insert(&mut summary, "tool_status", JsonValue::Str(result.status.clone()));
    obj_insert(&mut summary, "summary", JsonValue::Str(truncate_audit_text(result.summary.as_str(), 256)));
    proof {
        assert(entries_view(summary@) =~= seq![
            ("tool_status"@, Json::Str(result.status@)),
            ("summary"@, Json::Str(spec_truncate_audit_text(result.summary@, 256))),
        ]);
    }
    insert_cloned(&mut summary, "source", c.get("source"));
    insert_cloned(&mut summary, "resource", c.get("resource"));
    insert_cloned(&mut summary, "stdout_truncated", c.get("stdout_truncated"));
    insert_object_if_not_empty(&mut summary, "output", output_selection(c));
    insert_object_if_not_empty(&mut summary, "response", response_selection(c));
    insert_object_if_not_empty(&mut summary, "inventory", inventory_selection(c));
    insert_object_if_not_empty(&mut summary, "analysis", analysis_selection(c));
    insert_object_if_not_empty(&mut summary, "image", image_selection(c));
    proof {
        lemma_object_view(summary);
    }
    JsonValue::Object(summary)
}

/// Admit a direct capability request: only direct actions run, within the
/// clamped timeout.
pub fn admit_direct_capability(action: &AgentAction, requested: Option<u64>, default_ms: u64, max_ms: u64) -> (r: Result<u64, ApiError>)
    requires
        1 <= max_ms,
    ensures
        r is Ok <==> spec_is_direct_kind(action.kind),
        r matches Ok(t) ==> t as int == spec_direct_capability_timeout_ms(requested, default_ms, max_ms),
        r matches Err(e) ==> e.kind == ErrorKind::BadRequest && e.message@ == action.kind_name@
            + " is not exposed through direct capability execution"@,
{
    let timeout_ms = direct_capability_timeout_ms(requested, default_ms, max_ms);
    if !is_direct_capability_action(action) {
        let message = action.kind_name.clone().concat(" is not exposed through direct capability execution");
        return Err(ApiError::with_message(ErrorKind::BadRequest, message));
    }
    Ok(timeout_ms)
}

/// What is recorded of a tool result kept as evidence: the artifact and the
/// observation that points at it.
pub struct DirectEvidencePlan {
    pub source: String,
    pub artifact_kind: String,
    pub label: String,
    pub content: JsonValue,
    pub observation_kind: String,
    pub subject: String,
    pub namespace: Option<String>,
    pub resource_kind: Option<String>,
    pub resource_name: Option<String>,
    pub resource_ref: JsonValue,
    pub data: JsonValue,
}

/// The evidence a tool result leaves behind, when its source is kept.
pub fn direct_capability_evidence_plan(action_name: &str, result: &ToolResult) -> (r: Option<DirectEvidencePlan>)
    ensures
        r is None <==> spec_direct_evidence_source(result.content@) is None,
        r matches Some(p) ==> {
            let c = result.content@;
            let source = spec_direct_evidence_source(c)->0;
            let kind = spec_direct_observation_kind(c, source);
            let subject = spec_direct_observation_subject(c, source, kind);
            &&& p.source@ == source
            &&& p.artifact_kind@ == spec_direct_artifact_kind(c, source)
            &&& p.label@ == result.summary@
            &&& p.content@ == c
            &&& p.observation_kind@ == kind
            &&& p.subject@ == subject
            &&& opt_text(p.namespace) == spec_direct_observation_namespace(c)
            &&& opt_text(p.resource_kind) == spec_direct_observation_resource_kind(c, source, kind)
            &&& opt_text(p.resource_name) == spec_direct_observation_resource_name(c, source, kind, subject)
            &&& p.resource_ref@ == spec_direct_observation_resource_ref(action_name@, source, kind, subject)
            &&& p.data@ == Json::Object(spec_select_paths(c, data_fields()))
        },
{
    let source = match direct_evidence_source(result) {
        Some(s) => s,
        None => return None,
    };
    let c = &result.content;
    let kind = direct_observation_kind(c, source);
    let subject = direct_observation_subject(c, source, kind.as_str());
    let namespace = direct_observation_namespace(c);
    let resource_kind = direct_observation_resource_kind(c, source, kind.as_str());
    let resource_name = direct_observation_resource_name(c, source, kind.as_str(), subject.as_str());
    let resource_ref = direct_observation_resource_ref(action_name, source, kind.as_str(), subject.as_str());
    let data = direct_observation_data(c);
    Some(DirectEvidencePlan {
        source: source.to_owned(),
        artifact_kind: direct_artifact_kind(c, source),
        label: result.summary.clone(),
        content: c.duplicate(),
        observation_kind: kind,
        subject,
        namespace,
        resource_kind,
        resource_name,
        resource_ref,
        data,
    })
}

/// The policy's verdict on an action.
pub enum PolicyVerdict {
    Allow,
    Ask,
    Deny { summary: String },
}

/// How an allowed tool call ended.
pub enum ToolRun {
    /// It returned a result; the evidence recorded for it, if any.
    Completed { result: ToolResult, artifact_id: Option<String>, observation_id: Option<String> },
    /// The tool reported an error.
    Failed { error: String },
    /// It did not finish within the timeout.
    Cancelled,
}

/// Where a direct capability request ended up.
pub enum CapabilityDisposition {
    Ran(ToolRun),
    AwaitingApproval,
    Denied { summary: String },
}

/// The answer to a direct capability request.
pub struct ExecuteCapabilityResponse {
    pub status: String,
    pub action: String,
    pub executed: bool,
    pub cancelled: bool,
    pub timeout_ms: u64,
    pub artifact_id: Option<String>,
    pub observation_id: Option<String>,
    pub result: Option<ToolResult>,
    pub error: Option<String>,
}

/// The audit record of a direct capability request.
pub struct DirectCapabilityAudit {
    pub kind: String,
    pub executed: bool,
    pub cancelled: bool,
    pub timeout_ms: u64,
    pub result: Option<JsonValue>,
    pub error: Option<String>,
}

pub open spec fn response_is(
    r: ExecuteCapabilityResponse,
    status: Seq<char>,
    action: Seq<char>,
    executed: bool,
    cancelled: bool,
    timeout_ms: u64,
    error: Option<Seq<char>>,
) -> bool {
    &&& r.status@ == status
    &&& r.action@ == action
    &&& r.executed == executed
    &&& r.cancelled == cancelled
    &&& r.timeout_ms == timeout_ms
    &&& opt_text(r.error) == error
}

pub open spec fn audit_is(
    a: DirectCapabilityAudit,
    kind: Seq<char>,
    executed: bool,
    cancelled: bool,
    timeout_ms: u64,
    error: Option<Seq<char>>,
) -> bool {
    &&& a.kind@ == kind
    &&& a.executed == executed
    &&& a.cancelled == cancelled
    &&& a.timeout_ms == timeout_ms
    &&& opt_text(a.error) == error
}

pub open spec fn cancelled_message(timeout_ms: u64) -> Seq<char> {
    "capability execution cancelled after "@ + spec_decimal(timeout_ms as nat) + " ms"@
}

/// The response to a direct capability request and the audit record it
/// leaves: executed calls and denials are audited, requests awaiting
/// approval are not.
pub fn direct_capability_outcome(action_name: &str, timeout_ms: u64, disposition: CapabilityDisposition) -> (r: (ExecuteCapabilityResponse, Option<DirectCapabilityAudit>))
    requires
        disposition matches CapabilityDisposition::Ran(ToolRun::Completed { result, artifact_id, observation_id }) ==> {
            &&& (artifact_id is Some <==> spec_direct_evidence_source(result.content@) is Some)
            &&& (observation_id is Some <==> artifact_id is Some)
        },
    ensures
        match disposition {
            CapabilityDisposition::Ran(ToolRun::Completed { result, artifact_id, observation_id }) => {
                &&& response_is(r.0, "ok"@, action_name@, true, false, timeout_ms, None)
                &&& r.0.artifact_id == artifact_id && r.0.observation_id == observation_id
                &&& (r.0.artifact_id is Some <==> spec_direct_evidence_source(result.content@) is Some)
                &&& r.0.result == Some(result)
                &&& r.1 matches Some(a) && audit_is(a, "direct_capability.executed"@, true, false, timeout_ms, None)
                    && (a.result matches Some(j) && j@ == spec_result_summary(result))
            },
            CapabilityDisposition::Ran(ToolRun::Failed { error }) => {
                &&& response_is(r.0, "tool_error"@, action_name@, true, false, timeout_ms, Some(error@))
                &&& r.0.artifact_id is None && r.0.observation_id is None && r.0.result is None
                &&& r.1 matches Some(a) && audit_is(a, "direct_capability.failed"@, true, false, timeout_ms,
                    Some(spec_truncate_audit_text(error@, 512))) && a.result is None
            },
            CapabilityDisposition::Ran(ToolRun::Cancelled) => {
                &&& response_is(r.0, "cancelled"@, action_name@, true, true, timeout_ms, Some(cancelled_message(timeout_ms)))
                &&& r.0.artifact_id is None && r.0.observation_id is None && r.0.result is None
                &&& r.1 matches Some(a) && audit_is(a, "direct_capability.cancelled"@, true, true, timeout_ms,
                    Some(spec_truncate_audit_text(cancelled_message(timeout_ms), 512))) && a.result is None
            },
            CapabilityDisposition::AwaitingApproval => {
                &&& response_is(r.0, "approval_required"@, action_name@, false, false, timeout_ms, None)
                &&& r.0.artifact_id is None && r.0.observation_id is None && r.0.result is None
                &&& r.1 is None
            },
            CapabilityDisposition::Denied { summary } => {
                &&& response_is(r.0, "denied"@, action_name@, false, false, timeout_ms, Some(summary@))
                &&& r.0.artifact_id is None && r.0.observation_id is None && r.0.result is None
                &&& r.1 matches Some(a) && audit_is(a, "direct_capability.denied"@, false, false, timeout_ms, None)
                    && a.result is None
            },
        },
{
    let action = action_name.to_owned();
    match disposition {
        CapabilityDisposition::Ran(ToolRun::Completed { result, artifact_id, observation_id }) => {
            let summary = direct_capability_result_summary(&result);
            let audit = DirectCapabilityAudit {
                kind: String::from_str("direct_capability.executed"),
                executed: true,
                cancelled: false,
                timeout_ms,
                result: Some(summary),
                error: None,
            };
            let response = ExecuteCapabilityResponse {
                status: String::from_str("ok"),
                action,
                executed: true,
                cancelled: false,
                timeout_ms,
                artifact_id,
                observation_id,
                result: Some(result),
                error: None,
            };
            (response, Some(audit))
        },
        CapabilityDisposition::Ran(ToolRun::Failed { error }) => {
            let audit = DirectCapabilityAudit {
                kind: String::from_str("direct_capability.failed"),
                executed: true,
                cancelled: false,
                timeout_ms,
                result: None,
                error: Some(truncate_audit_text(error.as_str(), 512)),
            };
            let response = ExecuteCapabilityResponse {
                status: String::from_str("tool_error"),
                action,
                executed: true,
                cancelled: false,
                timeout_ms,
                artifact_id: None,
                observation_id: None,
                result: None,
                error: Some(error),
            };
            (response, Some(audit))
        },
        CapabilityDisposition::Ran(ToolRun::Cancelled) => {
            let message = String::from_str("capability execution cancelled after ").concat(
                decimal_u128(timeout_ms as u128).as_str(),
            ).concat(" ms");
            let audit = DirectCapabilityAudit {
                kind: String::from_str("direct_capability.cancelled"),
                executed: true,
                cancelled: true,
                timeout_ms,
                result: None,
                error: Some(truncate_audit_text(message.as_str(), 512)),
            };
            let response = ExecuteCapabilityResponse {
                status: String::from_str("cancelled"),
                action,
                executed: true,
                cancelled: true,
                timeout_ms,
                artifact_id: None,
                observation_id: None,
                result: None,
                error: Some(message),
            };
            (response, Some(audit))
        },
        CapabilityDisposition::AwaitingApproval => {
            let response = ExecuteCapabilityResponse {
                status: String::from_str("approval_required"),
                action,
                executed: false,
                cancelled: false,
                timeout_ms,
                artifact_id: None,
                observation_id: None,
                result: None,
                error: None,
            };
            (response, None)
        },
        CapabilityDisposition::Denied { summary } => {
            let audit = DirectCapabilityAudit {
                kind: String::from_str("direct_capability.denied"),
                executed: false,
                cancelled: false,
                timeout_ms,
                result: None,
                error: None,
            };
            let response = ExecuteCapabilityResponse {
                status: String::from_str("denied"),
                action,
                executed: false,
                cancelled: false,
                timeout_ms,
                artifact_id: None,
                observation_id: None,
                result: None,
                error: Some(summary),
            };
            (response, Some(audit))
        },
    }
}

} // verus!
