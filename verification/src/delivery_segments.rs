//! The five delivery segments shown for a WorkItem: source, build, GitOps,
//! deploy and verify. Each segment is reached only once the one before it is
//! complete, and a segment that is not complete says why it stopped.
use vstd::prelude::*;
use crate::text::{opt_str_view, opt_text, str_eq};

verus! {

/// A resource that evidences a segment.
pub struct DeliverySegmentResourceResponse {
    pub kind: String,
    pub id: String,
    pub label: String,
    pub summary: Option<String>,
}

/// One delivery segment.
pub struct DeliverySegmentResponse {
    pub key: String,
    pub label: String,
    pub status: String,
    pub summary: String,
    pub stopping_reason: Option<String>,
    pub resources: Vec<DeliverySegmentResourceResponse>,
}

/// A controller record that a segment follows (ChangeSet, PipelineIntent,
/// GitOps ChangeSet, DeploymentIntent, Release).
pub struct FlowRecord {
    pub id: String,
    pub status: String,
    pub status_reason: Option<String>,
    pub summary: String,
}

/// A record known by its id and a one-line description.
pub struct FlowReference {
    pub id: String,
    pub text: String,
}

/// The SDLC flow of a WorkItem as far as the segments read it.
pub struct SdlcFlow {
    pub work_plan: FlowReference,
    pub change_set: Option<FlowRecord>,
    /// The latest source pull-request result of the Git delivery, if any.
    pub source_pr_evidence: Option<FlowReference>,
    pub pipeline_intent: Option<FlowRecord>,
    pub gitops_change_set: Option<FlowRecord>,
    pub deployment_intent: Option<FlowRecord>,
    pub release: Option<FlowRecord>,
    pub registry_evidence: Option<FlowReference>,
}

/// The captured workspace of a WorkItem.
pub struct Workspace {
    pub id: String,
    pub status: String,
    pub source_repo: String,
    pub resolved_commit: Option<String>,
    pub source_ref: String,
}


/// A resource as a tuple of kind, id, label and summary.
pub open spec fn resource_view(r: DeliverySegmentResourceResponse) -> (
    Seq<char>,
    Seq<char>,
    Seq<char>,
    Option<Seq<char>>,
) {
    (r.kind@, r.id@, r.label@, opt_text(r.summary))
}

pub open spec fn resources_view(rs: Seq<DeliverySegmentResourceResponse>) -> Seq<
    (Seq<char>, Seq<char>, Seq<char>, Option<Seq<char>>),
> {
    rs.map_values(|r: DeliverySegmentResourceResponse| resource_view(r))
}

/// Statuses at which a controller record counts as done.
pub open spec fn spec_is_complete_status(s: Seq<char>) -> bool {
    ||| s == "captured"@
    ||| s == "completed"@
    ||| s == "verified"@
    ||| s == "merged"@
    ||| s == "succeeded"@
    ||| s == "satisfied"@
    ||| s == "ready"@
    ||| s == "applied"@
}

/// Statuses at which a controller record cannot progress.
pub open spec fn spec_is_blocked_status(s: Seq<char>) -> bool {
    s == "blocked"@ || s == "failed"@ || s == "rejected"@ || s == "stale"@
}

/// The segment status a record status maps to.
pub open spec fn spec_mapped_status(s: Seq<char>) -> Seq<char> {
    if spec_is_complete_status(s) {
        "complete"@
    } else if spec_is_blocked_status(s) {
        "blocked"@
    } else {
        "active"@
    }
}

/// A segment stops for its summary unless it is complete.
pub open spec fn segment_well_formed(s: DeliverySegmentResponse) -> bool {
    &&& (s.status@ != "complete"@ ==> opt_text(s.stopping_reason) == Some(s.summary@))
    &&& (s.status@ == "complete"@ ==> s.stopping_reason is None)
}

pub fn is_complete_delivery_status(status: &str) -> (r: bool)
    ensures
        r == spec_is_complete_status(status@),
{
    str_eq(status, "captured") || str_eq(status, "completed") || str_eq(status, "verified")
        || str_eq(status, "merged") || str_eq(status, "succeeded") || str_eq(status, "satisfied")
        || str_eq(status, "ready") || str_eq(status, "applied")
}

pub fn is_blocked_delivery_status(status: &str) -> (r: bool)
    ensures
        r == spec_is_blocked_status(status@),
{
    str_eq(status, "blocked") || str_eq(status, "failed") || str_eq(status, "rejected") || str_eq(
        status,
        "stale",
    )
}

pub fn delivery_resource(kind: &str, id: &str, label: &str, summary: Option<String>) -> (r:
    DeliverySegmentResourceResponse)
    ensures
        resource_view(r) == (kind@, id@, label@, opt_text(summary)),
{
    DeliverySegmentResourceResponse {
        kind: kind.to_owned(),
        id: id.to_owned(),
        label: label.to_owned(),
        summary,
    }
}

pub fn delivery_segment(
    key: &str,
    label: &str,
    status: &str,
    summary: &str,
    resources: Vec<DeliverySegmentResourceResponse>,
) -> (r: DeliverySegmentResponse)
    ensures
        r.key@ == key@,
        r.label@ == label@,
        r.status@ == status@,
        r.summary@ == summary@,
        r.resources@ == resources@,
        segment_well_formed(r),
{
    let stopping_reason = if !str_eq(status, "complete") {
        Some(summary.to_owned())
    } else {
        None
    };
    DeliverySegmentResponse {
        key: key.to_owned(),
        label: label.to_owned(),
        status: status.to_owned(),
        summary: summary.to_owned(),
        stopping_reason,
        resources,
    }
}

/// The status of a segment that follows another one.
pub open spec fn spec_next_status(previous_complete: bool, resource_status: Option<Seq<char>>) -> Seq<
    char,
> {
    if !previous_complete {
        "unreached"@
    } else {
        match resource_status {
            None => "active"@,
            Some(s) => spec_mapped_status(s),
        }
    }
}

/// The summary of a segment that follows another one.
pub open spec fn spec_next_summary(
    previous_complete: bool,
    resource_status: Option<Seq<char>>,
    resource_summary: Option<Seq<char>>,
    waiting_for_previous: Seq<char>,
    waiting_for_record: Seq<char>,
) -> Seq<char> {
    if !previous_complete {
        waiting_for_previous
    } else if resource_status is None {
        waiting_for_record
    } else {
        match resource_summary {
            Some(s) => s,
            None => "Controller state recorded."@,
        }
    }
}


/// A segment after the first: unreached until the previous segment is
/// complete, active while its record is missing, then following the record.
pub fn next_delivery_segment(
    key: &str,
    label: &str,
    previous_complete: bool,
    resource_status: Option<&str>,
    resource_summary: Option<&str>,
    resources: Option<Vec<DeliverySegmentResourceResponse>>,
    summaries: [&str; 2],
) -> (r: DeliverySegmentResponse)
    ensures
        r.key@ == key@,
        r.label@ == label@,
        r.status@ == spec_next_status(previous_complete, opt_str_view(resource_status)),
        r.summary@ == spec_next_summary(
            previous_complete,
            opt_str_view(resource_status),
            opt_str_view(resource_summary),
            summaries@[0]@,
            summaries@[1]@,
        ),
        r.resources@ == if previous_complete && resource_status is Some && resources is Some {
            resources->0@
        } else {
            Seq::empty()
        },
        segment_well_formed(r),
{
    if !previous_complete {
        return delivery_segment(key, label, "unreached", summaries[0], Vec::new());
    }
    let status = match resource_status {
        Some(s) => s,
        None => {
            return delivery_segment(key, label, "active", summaries[1], Vec::new());
        },
    };
    let mapped_status = if is_complete_delivery_status(status) {
        "complete"
    } else if is_blocked_delivery_status(status) {
        "blocked"
    } else {
        "active"
    };
    let summary = match resource_summary {
        Some(s) => s,
        None => "Controller state recorded.",
    };
    let resources = match resources {
        Some(v) => v,
        None => Vec::new(),
    };
    delivery_segment(key, label, mapped_status, summary, resources)
}

pub open spec fn record_status(r: Option<FlowRecord>) -> Option<Seq<char>> {
    match r {
        Some(x) => Some(x.status@),
        None => None,
    }
}

/// What a record says about itself: its status reason, else its summary.
pub open spec fn record_summary(r: Option<FlowRecord>) -> Option<Seq<char>> {
    match r {
        Some(x) => match x.status_reason {
            Some(reason) => Some(reason@),
            None => Some(x.summary@),
        },
        None => None,
    }
}

pub open spec fn spec_source_blocked(flow: SdlcFlow) -> bool {
    flow.change_set matches Some(cs) && spec_is_blocked_status(cs.status@)
}

pub open spec fn spec_source_complete(flow: SdlcFlow, workspace: Option<Workspace>) -> bool {
    &&& workspace matches Some(w) && w.status@ == "captured"@
    &&& flow.change_set matches Some(cs) && spec_is_complete_status(cs.status@)
}

pub open spec fn spec_source_status(flow: SdlcFlow, workspace: Option<Workspace>) -> Seq<char> {
    if spec_source_blocked(flow) {
        "blocked"@
    } else if spec_source_complete(flow, workspace) {
        "complete"@
    } else {
        "active"@
    }
}

pub open spec fn spec_source_summary(flow: SdlcFlow, workspace: Option<Workspace>) -> Seq<char> {
    if spec_source_blocked(flow) {
        match flow.change_set->0.status_reason {
            Some(reason) => reason@,
            None => "Source change requires a new reviewed revision."@,
        }
    } else if spec_source_complete(flow, workspace) {
        "Immutable source change and workspace provenance are recorded."@
    } else {
        "Awaiting a captured workspace and reviewed source ChangeSet."@
    }
}

/// `repo @ commit`, the commit falling back to the source ref.
pub open spec fn spec_workspace_summary(w: Workspace) -> Seq<char> {
    w.source_repo@ + " @ "@ + match w.resolved_commit {
        Some(c) => c@,
        None => w.source_ref@,
    }
}

pub open spec fn spec_source_resources(flow: SdlcFlow, workspace: Option<Workspace>) -> Seq<
    (Seq<char>, Seq<char>, Seq<char>, Option<Seq<char>>),
> {
    seq![("work_plan"@, flow.work_plan.id@, "WorkPlan"@, Some(flow.work_plan.text@))] + match workspace {
        Some(w) => seq![("workspace"@, w.id@, "Workspace"@, Some(spec_workspace_summary(w)))],
        None => Seq::empty(),
    } + match flow.change_set {
        Some(cs) => seq![("change_set"@, cs.id@, "ChangeSet"@, Some(cs.summary@))],
        None => Seq::empty(),
    } + match flow.source_pr_evidence {
        Some(a) => seq![("artifact"@, a.id@, "Source PR evidence"@, Some(a.text@))],
        None => Seq::empty(),
    }
}

/// The resource a later segment lists for its record once it is reached.
pub open spec fn spec_record_resources(
    previous_complete: bool,
    r: Option<FlowRecord>,
    kind: Seq<char>,
    label: Seq<char>,
) -> Seq<(Seq<char>, Seq<char>, Seq<char>, Option<Seq<char>>)> {
    if previous_complete && r is Some {
        seq![(kind, r->0.id@, label, Some(r->0.summary@))]
    } else {
        Seq::empty()
    }
}

pub open spec fn spec_build_status(flow: SdlcFlow, workspace: Option<Workspace>) -> Seq<char> {
    spec_next_status(
        spec_source_status(flow, workspace) == "complete"@,
        record_status(flow.pipeline_intent),
    )
}

pub open spec fn spec_gitops_status(flow: SdlcFlow, workspace: Option<Workspace>) -> Seq<char> {
    spec_next_status(
        spec_build_status(flow, workspace) == "complete"@,
        record_status(flow.gitops_change_set),
    )
}

pub open spec fn spec_deploy_status(flow: SdlcFlow, workspace: Option<Workspace>) -> Seq<char> {
    spec_next_status(
        spec_gitops_status(flow, workspace) == "complete"@,
        record_status(flow.deployment_intent),
    )
}

pub open spec fn spec_verify_status(flow: SdlcFlow, workspace: Option<Workspace>) -> Seq<char> {
    spec_next_status(
        spec_deploy_status(flow, workspace) == "complete"@,
        record_status(flow.release),
    )
}

/// The statuses of the five segments, in order.
pub open spec fn spec_segment_statuses(flow: SdlcFlow, workspace: Option<Workspace>) -> Seq<
    Seq<char>,
> {
    seq![
        spec_source_status(flow, workspace),
        spec_build_status(flow, workspace),
        spec_gitops_status(flow, workspace),
        spec_deploy_status(flow, workspace),
        spec_verify_status(flow, workspace),
    ]
}

pub open spec fn spec_segment_keys() -> Seq<Seq<char>> {
    seq!["source"@, "build"@, "gitops"@, "deploy"@, "verify"@]
}

pub open spec fn spec_segment_labels() -> Seq<Seq<char>> {
    seq!["Source"@, "Build"@, "GitOps"@, "Deploy"@, "Verify"@]
}

pub open spec fn spec_verify_resources(flow: SdlcFlow, workspace: Option<Workspace>) -> Seq<
    (Seq<char>, Seq<char>, Seq<char>, Option<Seq<char>>),
> {
    if spec_deploy_status(flow, workspace) == "complete"@ && flow.release is Some {
        seq![("release"@, flow.release->0.id@, "Release"@, Some(flow.release->0.summary@))]
            + match flow.registry_evidence {
            Some(e) => seq![("registry_evidence"@, e.id@, "Registry evidence"@, Some(e.text@))],
            None => Seq::empty(),
        }
    } else {
        Seq::empty()
    }
}

fn option_record_fields(r: &Option<FlowRecord>) -> (out: (Option<&str>, Option<&str>))
    ensures
        opt_str_view(out.0) == record_status(*r),
        opt_str_view(out.1) == record_summary(*r),
{
    match r {
        Some(x) => {
            let summary = match &x.status_reason {
                Some(reason) => reason.as_str(),
                None => x.summary.as_str(),
            };
            (Some(x.status.as_str()), Some(summary))
        },
        None => (None, None),
    }
}

fn record_resources(r: &Option<FlowRecord>, kind: &str, label: &str) -> (out: Option<
    Vec<DeliverySegmentResourceResponse>,
>)
    ensures
        out is Some <==> r is Some,
        out is Some ==> resources_view(out->0@) == seq![
            (kind@, r->0.id@, label@, Some(r->0.summary@)),
        ],
{
    match r {
        Some(x) => {
            let mut v = Vec::new();
            v.push(delivery_resource(kind, x.id.as_str(), label, Some(x.summary.clone())));
            proof {
                assert(resources_view(v@) =~= seq![(kind@, x.id@, label@, Some(x.summary@))]);
            }
            Some(v)
        },
        None => None,
    }
}

/// The segments of a WorkItem that has an SDLC flow.
pub fn sdlc_flow_delivery_segments(flow: &SdlcFlow, workspace: Option<&Workspace>) -> (r: Vec<
    DeliverySegmentResponse,
>)
    ensures
        r@.len() == 5,
        forall|i: int| 0 <= i < 5 ==> #[trigger] r@[i].key@ == spec_segment_keys()[i],
        forall|i: int| 0 <= i < 5 ==> #[trigger] r@[i].label@ == spec_segment_labels()[i],
        forall|i: int|
            0 <= i < 5 ==> #[trigger] r@[i].status@ == spec_segment_statuses(
                *flow,
                opt_ref(workspace),
            )[i],
        forall|i: int| 0 <= i < 5 ==> segment_well_formed(#[trigger] r@[i]),
        r@[0].summary@ == spec_source_summary(*flow, opt_ref(workspace)),
        resources_view(r@[0].resources@) == spec_source_resources(*flow, opt_ref(workspace)),
        r@[1].summary@ == spec_next_summary(
            spec_source_status(*flow, opt_ref(workspace)) == "complete"@,
            record_status(flow.pipeline_intent),
            record_summary(flow.pipeline_intent),
            "Awaiting immutable source delivery before build can start."@,
            "Awaiting a PipelineIntent for the immutable source revision."@,
        ),
        resources_view(r@[1].resources@) == spec_record_resources(
            spec_source_status(*flow, opt_ref(workspace)) == "complete"@,
            flow.pipeline_intent,
            "pipeline_intent"@,
            "PipelineIntent"@,
        ),
        r@[2].summary@ == spec_next_summary(
            spec_build_status(*flow, opt_ref(workspace)) == "complete"@,
            record_status(flow.gitops_change_set),
            record_summary(flow.gitops_change_set),
            "Awaiting verified build output before GitOps delivery can start."@,
            "Awaiting a GitOps ChangeSet for the verified build output."@,
        ),
        resources_view(r@[2].resources@) == spec_record_resources(
            spec_build_status(*flow, opt_ref(workspace)) == "complete"@,
            flow.gitops_change_set,
            "gitops_change_set"@,
            "GitOps ChangeSet"@,
        ),
        r@[3].summary@ == spec_next_summary(
            spec_gitops_status(*flow, opt_ref(workspace)) == "complete"@,
            record_status(flow.deployment_intent),
            record_summary(flow.deployment_intent),
            "Awaiting GitOps merge provenance before deployment can start."@,
            "Awaiting a DeploymentIntent for the immutable GitOps revision."@,
        ),
        resources_view(r@[3].resources@) == spec_record_resources(
            spec_gitops_status(*flow, opt_ref(workspace)) == "complete"@,
            flow.deployment_intent,
            "deployment_intent"@,
            "DeploymentIntent"@,
        ),
        r@[4].summary@ == spec_next_summary(
            spec_deploy_status(*flow, opt_ref(workspace)) == "complete"@,
            record_status(flow.release),
            record_summary(flow.release),
            "Awaiting completed deployment before verification can start."@,
            "Awaiting a Release and post-deploy verification evidence."@,
        ),
        resources_view(r@[4].resources@) == spec_verify_resources(*flow, opt_ref(workspace)),
{
    let ghost ws = opt_ref(workspace);
    let change_set = &flow.change_set;
    let source_blocked = match change_set {
        Some(item) => is_blocked_delivery_status(item.status.as_str()),
        None => false,
    };
    let source_complete = match workspace {
        Some(w) => str_eq(w.status.as_str(), "captured"),
        None => false,
    } && match change_set {
        Some(item) => is_complete_delivery_status(item.status.as_str()),
        None => false,
    };
    let mut source_resources: Vec<DeliverySegmentResourceResponse> = Vec::new();
    source_resources.push(
        delivery_resource(
            "work_plan",
            flow.work_plan.id.as_str(),
            "WorkPlan",
            Some(flow.work_plan.text.clone()),
        ),
    );
    let ghost r1 = resources_view(source_resources@);
    proof {
        assert(r1 =~= seq![("work_plan"@, flow.work_plan.id@, "WorkPlan"@, Some(flow.work_plan.text@))]);
    }
    if let Some(w) = workspace {
        let commit = match &w.resolved_commit {
            Some(c) => c.as_str(),
            None => w.source_ref.as_str(),
        };
        let text = w.source_repo.clone().concat(" @ ").concat(commit);
        source_resources.push(delivery_resource("workspace", w.id.as_str(), "Workspace", Some(text)));
    }
    let ghost r2 = resources_view(source_resources@);
    proof {
        assert(r2 =~= r1 + match ws {
            Some(w) => seq![("workspace"@, w.id@, "Workspace"@, Some(spec_workspace_summary(w)))],
            None => Seq::empty(),
        });
    }
    if let Some(cs) = change_set {
        source_resources.push(
            delivery_resource("change_set", cs.id.as_str(), "ChangeSet", Some(cs.summary.clone())),
        );
    }
    let ghost r3 = resources_view(source_resources@);
    proof {
        assert(r3 =~= r2 + match flow.change_set {
            Some(cs) => seq![("change_set"@, cs.id@, "ChangeSet"@, Some(cs.summary@))],
            None => Seq::empty(),
        });
    }
    if let Some(artifact) = &flow.source_pr_evidence {
        source_resources.push(
            delivery_resource(
                "artifact",
                artifact.id.as_str(),
                "Source PR evidence",
                Some(artifact.text.clone()),
            ),
        );
    }
    proof {
        assert(resources_view(source_resources@) =~= r3 + match flow.source_pr_evidence {
            Some(a) => seq![("artifact"@, a.id@, "Source PR evidence"@, Some(a.text@))],
            None => Seq::empty(),
        });
    }
    let source_status = if source_blocked {
        "blocked"
    } else if source_complete {
        "complete"
    } else {
        "active"
    };
    let source_summary = if source_blocked {
        match &change_set {
            Some(item) => match &item.status_reason {
                Some(reason) => reason.as_str(),
                None => "Source change requires a new reviewed revision.",
            },
            None => "Source change requires a new reviewed revision.",
        }
    } else if source_complete {
        "Immutable source change and workspace provenance are recorded."
    } else {
        "Awaiting a captured workspace and reviewed source ChangeSet."
    };
    let source = delivery_segment("source", "Source", source_status, source_summary, source_resources);
    let source_done = str_eq(source.status.as_str(), "complete");

    let (pipeline_status, pipeline_summary) = option_record_fields(&flow.pipeline_intent);
    let build = next_delivery_segment(
        "build",
        "Build",
        source_done,
        pipeline_status,
        pipeline_summary,
        record_resources(&flow.pipeline_intent, "pipeline_intent", "PipelineIntent"),
        [
            "Awaiting immutable source delivery before build can start.",
            "Awaiting a PipelineIntent for the immutable source revision.",
        ],
    );
    let build_complete = str_eq(build.status.as_str(), "complete");

    let (gitops_status, gitops_summary) = option_record_fields(&flow.gitops_change_set);
    let gitops_segment = next_delivery_segment(
        "gitops",
        "GitOps",
        build_complete,
        gitops_status,
        gitops_summary,
        record_resources(&flow.gitops_change_set, "gitops_change_set", "GitOps ChangeSet"),
        [
            "Awaiting verified build output before GitOps delivery can start.",
            "Awaiting a GitOps ChangeSet for the verified build output.",
        ],
    );
    let gitops_complete = str_eq(gitops_segment.status.as_str(), "complete");

    let (deploy_status, deploy_summary) = option_record_fields(&flow.deployment_intent);
    let deploy_segment = next_delivery_segment(
        "deploy",
        "Deploy",
        gitops_complete,
        deploy_status,
        deploy_summary,
        record_resources(&flow.deployment_intent, "deployment_intent", "DeploymentIntent"),
        [
            "Awaiting GitOps merge provenance before deployment can start.",
            "Awaiting a DeploymentIntent for the immutable GitOps revision.",
        ],
    );
    let deploy_complete = str_eq(deploy_segment.status.as_str(), "complete");

    let mut verify_resources: Vec<DeliverySegmentResourceResponse> = Vec::new();
    if let Some(item) = &flow.release {
        verify_resources.push(
            delivery_resource("release", item.id.as_str(), "Release", Some(item.summary.clone())),
        );
    }
    let ghost v1 = resources_view(verify_resources@);
    if let Some(evidence) = &flow.registry_evidence {
        verify_resources.push(
            delivery_resource(
                "registry_evidence",
                evidence.id.as_str(),
                "Registry evidence",
                Some(evidence.text.clone()),
            ),
        );
    }
    proof {
        if flow.release is Some {
            assert(v1 =~= seq![("release"@, flow.release->0.id@, "Release"@, Some(flow.release->0.summary@))]);
            assert(resources_view(verify_resources@) =~= v1 + match flow.registry_evidence {
                Some(e) => seq![("registry_evidence"@, e.id@, "Registry evidence"@, Some(e.text@))],
                None => Seq::empty(),
            });
        }
    }
    let (release_status, release_summary) = option_record_fields(&flow.release);
    let verify = next_delivery_segment(
        "verify",
        "Verify",
        deploy_complete,
        release_status,
        release_summary,
        Some(verify_resources),
        [
            "Awaiting completed deployment before verification can start.",
            "Awaiting a Release and post-deploy verification evidence.",
        ],
    );
    let mut out = Vec::new();
    out.push(source);
    out.push(build);
    out.push(gitops_segment);
    out.push(deploy_segment);
    out.push(verify);
    out
}

pub open spec fn opt_ref(w: Option<&Workspace>) -> Option<Workspace> {
    match w {
        Some(x) => Some(*x),
        None => None,
    }
}

/// The single segment shown before a WorkPlan declares the SDLC flow.
pub open spec fn spec_undeclared_flow_summary() -> Seq<char> {
    "Awaiting WorkPlan declaration before source work can begin."@
}

/// The segments of a WorkItem: one active source segment until a WorkPlan
/// declares its flow, then the five flow segments.
pub fn work_item_delivery_segments(flow: &Option<SdlcFlow>, workspace: Option<&Workspace>) -> (r:
    Vec<DeliverySegmentResponse>)
    ensures
        flow is None ==> {
            &&& r@.len() == 1
            &&& r@[0].key@ == "source"@
            &&& r@[0].label@ == "Source"@
            &&& r@[0].status@ == "active"@
            &&& r@[0].summary@ == spec_undeclared_flow_summary()
            &&& r@[0].resources@.len() == 0
            &&& segment_well_formed(r@[0])
        },
        flow is Some ==> {
            &&& r@.len() == 5
            &&& forall|i: int| 0 <= i < 5 ==> #[trigger] r@[i].key@ == spec_segment_keys()[i]
            &&& forall|i: int| 0 <= i < 5 ==> #[trigger] r@[i].label@ == spec_segment_labels()[i]
            &&& forall|i: int|
                0 <= i < 5 ==> #[trigger] r@[i].status@ == spec_segment_statuses(
                    flow->0,
                    opt_ref(workspace),
                )[i]
            &&& forall|i: int| 0 <= i < 5 ==> segment_well_formed(#[trigger] r@[i])
            &&& r@[0].summary@ == spec_source_summary(flow->0, opt_ref(workspace))
            &&& resources_view(r@[0].resources@) == spec_source_resources(flow->0, opt_ref(workspace))
            &&& r@[1].summary@ == spec_next_summary(
                spec_source_status(flow->0, opt_ref(workspace)) == "complete"@,
                record_status(flow->0.pipeline_intent),
                record_summary(flow->0.pipeline_intent),
                "Awaiting immutable source delivery before build can start."@,
                "Awaiting a PipelineIntent for the immutable source revision."@
            )
            &&& resources_view(r@[1].resources@) == spec_record_resources(
                spec_source_status(flow->0, opt_ref(workspace)) == "complete"@,
                flow->0.pipeline_intent,
                "pipeline_intent"@,
                "PipelineIntent"@
            )
            &&& r@[2].summary@ == spec_next_summary(
                spec_build_status(flow->0, opt_ref(workspace)) == "complete"@,
                record_status(flow->0.gitops_change_set),
                record_summary(flow->0.gitops_change_set),
                "Awaiting verified build output before GitOps delivery can start."@,
                "Awaiting a GitOps ChangeSet for the verified build output."@
            )
            &&& resources_view(r@[2].resources@) == spec_record_resources(
                spec_build_status(flow->0, opt_ref(workspace)) == "complete"@,
                flow->0.gitops_change_set,
                "gitops_change_set"@,
                "GitOps ChangeSet"@
            )
            &&& r@[3].summary@ == spec_next_summary(
                spec_gitops_status(flow->0, opt_ref(workspace)) == "complete"@,
                record_status(flow->0.deployment_intent),
                record_summary(flow->0.deployment_intent),
                "Awaiting GitOps merge provenance before deployment can start."@,
                "Awaiting a DeploymentIntent for the immutable GitOps revision."@
            )
            &&& resources_view(r@[3].resources@) == spec_record_resources(
                spec_gitops_status(flow->0, opt_ref(workspace)) == "complete"@,
                flow->0.deployment_intent,
                "deployment_intent"@,
                "DeploymentIntent"@
            )
            &&& r@[4].summary@ == spec_next_summary(
                spec_deploy_status(flow->0, opt_ref(workspace)) == "complete"@,
                record_status(flow->0.release),
                record_summary(flow->0.release),
                "Awaiting completed deployment before verification can start."@,
                "Awaiting a Release and post-deploy verification evidence."@
            )
            &&& resources_view(r@[4].resources@) == spec_verify_resources(flow->0, opt_ref(workspace))
        },
{
    match flow {
        None => {
            let mut out = Vec::new();
            out.push(
                delivery_segment(
                    "source",
                    "Source",
                    "active",
                    "Awaiting WorkPlan declaration before source work can begin.",
                    Vec::new(),
                ),
            );
            out
        },
        Some(f) => sdlc_flow_delivery_segments(f, workspace),
    }
}

/// A segment after the first is unreached exactly when the segment before
/// it is not complete.
pub proof fn lemma_segment_reached_iff_previous_complete(flow: SdlcFlow, workspace: Option<Workspace>)
    ensures
        forall|k: int|
            1 <= k < 5 ==> (#[trigger] spec_segment_statuses(flow, workspace)[k] == "unreached"@
                <==> spec_segment_statuses(flow, workspace)[k - 1] != "complete"@),
{
    reveal_strlit("unreached");
    reveal_strlit("complete");
    reveal_strlit("blocked");
    reveal_strlit("active");
    let st = spec_segment_statuses(flow, workspace);
    assert forall|k: int| 1 <= k < 5 implies (#[trigger] st[k] == "unreached"@ <==> st[k - 1]
        != "complete"@) by {
        let prev = st[k - 1] == "complete"@;
        let rs = if k == 1 {
            record_status(flow.pipeline_intent)
        } else if k == 2 {
            record_status(flow.gitops_change_set)
        } else if k == 3 {
            record_status(flow.deployment_intent)
        } else {
            record_status(flow.release)
        };
        assert(st[k] == spec_next_status(prev, rs));
        if let Some(x) = rs {
            assert(spec_mapped_status(x) != "unreached"@);
        }
    }
}

/// A complete segment is preceded only by complete segments.
pub proof fn lemma_complete_segments_form_a_prefix(flow: SdlcFlow, workspace: Option<Workspace>)
    ensures
        forall|j: int, k: int|
            0 <= j < k < 5 && #[trigger] spec_segment_statuses(flow, workspace)[k] == "complete"@
                ==> #[trigger] spec_segment_statuses(flow, workspace)[j] == "complete"@,
{
    reveal_strlit("unreached");
    reveal_strlit("complete");
    reveal_strlit("blocked");
    reveal_strlit("active");
    let st = spec_segment_statuses(flow, workspace);
    assert forall|k: int| 1 <= k < 5 && #[trigger] st[k] == "complete"@ implies st[k - 1]
        == "complete"@ by {
        let rs = if k == 1 {
            record_status(flow.pipeline_intent)
        } else if k == 2 {
            record_status(flow.gitops_change_set)
        } else if k == 3 {
            record_status(flow.deployment_intent)
        } else {
            record_status(flow.release)
        };
        assert(st[k] == spec_next_status(st[k - 1] == "complete"@, rs));
    }
    assert forall|j: int, k: int| 0 <= j < k < 5 && #[trigger] st[k] == "complete"@ implies #[trigger] st[j]
        == "complete"@ by {
        if k >= 4 && j < 4 { assert(st[3] == "complete"@); }
        if k >= 3 && j < 3 { assert(st[2] == "complete"@); }
        if k >= 2 && j < 2 { assert(st[1] == "complete"@); }
        if k >= 1 && j < 1 { assert(st[0] == "complete"@); }
    }
}

} // verus!
