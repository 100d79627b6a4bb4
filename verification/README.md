# pharness_api

The decision logic of the PHarness control plane, verified with Verus.

PHarness drives software delivery for a WorkItem: source changes, a
verified build, a GitOps change, an Argo CD deployment and its
verification, with operator approvals, scoped permission grants and a
hosted controller that advances approved work on its own. This crate holds
the rules that decide each of those steps: each public function states in
its `requires`/`ensures` what it decides (for a clock reading, what holds of
every reading), and Verus proves the code against it.

## Layout

- `src/` — the verified library.
  - `error`, `text`, `validation`, `json`: refusals, text and identifier
    checks, and a JSON model (`JsonValue` with its mathematical view `Json`).
  - `hashing`, `clock`: SHA-256 digests and constant-time token matching
    (through `sha2` and `subtle`), and the wall clock.
  - `artifacts`, `gitops`, `gitops_delivery`, `gitops_planning`,
    `gitops_execution`, `gitops_outcomes`, `gitops_flow`, `grants`:
    GitOps ChangeSets, delivery plans, preflights, writer and observer
    dispatch and their outcomes, and permission-grant matching.
  - `deployment`, `argo_sync`, `execution_checks`: deployment contracts,
    DeploymentIntents, the Argo CD preflight and the sync runner.
  - `delivery_segments`: the five delivery segments of a WorkItem.
  - `capabilities`, `agents`, `host_capabilities`, `host_control`,
    `qualification`, `environment`, `event_evidence`: direct read-only
    capabilities, agent hosts and their leases, execution-policy
    qualification, runner environments and test evidence.
  - `hosted_controller` and its submodules, `workflow_operations`,
    `workflow_progression`, `source_delivery`, `preparation`,
    `hosted_policy`, `approval_policy`: the hosted workflow controller —
    operator controls, progression, source merge, build, staging (baseline,
    admission, runtime collection) and automatic approvals.
  - `data_lifecycle`: archives, retention previews and retention holds.
- `tests/` — tests on concrete values for every module.
- `app/` — ordinary Rust around the library: JSON conversion with
  `serde_json`, serialized material hashes, request types with their serde
  derives, and handler cores that read configuration and the clock, check
  each function's `requires`, call the library and turn the documents it
  builds into `serde_json` values.

Laws of the library (for example that a rejected DeploymentIntent stays
rejected, that delivery segments are reached in order, or that a staging
write is never replayed after admission) are public proof functions named
`lemma_*` in the module they concern.
