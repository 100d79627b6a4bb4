//! Verified decision logic of the PHarness control plane.
pub mod error;
pub mod text;
pub mod validation;
pub mod json;
pub mod delivery_segments;
pub mod artifacts;
pub mod gitops;
pub mod hashing;
pub mod gitops_delivery;
pub mod execution_checks;
pub mod deployment;
pub mod capabilities;
pub mod clock;
pub mod hosted_controller;
pub mod agents;
pub mod approval_policy;
pub mod qualification;
pub mod gitops_execution;
pub mod workflow_operations;
pub mod workflow_progression;
pub mod source_delivery;
pub mod preparation;
pub mod gitops_outcomes;
pub mod grants;
pub mod gitops_planning;
pub mod environment;
pub mod hosted_policy;
pub mod host_capabilities;
pub mod data_lifecycle;
pub mod event_evidence;
pub mod host_control;
pub mod gitops_flow;
pub mod argo_sync;
