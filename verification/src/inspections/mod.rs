//! Inspection model: issue codes, issue records and the decision logic of the
//! inspection modules.

pub mod autoscaling;
pub mod batch;
pub mod certificates;
pub mod common;
pub mod control_plane;
pub mod events;
pub mod issue_codes;
pub mod middleware;
pub mod network;
pub mod observability;
pub mod overview;
pub mod plan;
pub mod policies;
pub mod pods;
pub mod resources;
pub mod runner;
pub mod security;
pub mod storage;
pub mod types;
pub mod upgrade;

use vstd::prelude::*;

use crate::utils::text::str_eq;

verus! {

/// Namespaces excluded from scoring (Kubernetes' own services); their
/// resources are still inspected and listed.
pub open spec fn scoring_excluded(ns: Seq<char>) -> bool {
    ns == "kube-system"@ || ns == "cilium-secrets"@
}

/// Whether a namespace is excluded from scoring.
pub fn is_scoring_excluded_namespace(ns: &str) -> (r: bool)
    ensures
        r == scoring_excluded(ns@),
{
    str_eq(ns, "kube-system") || str_eq(ns, "cilium-secrets")
}

} // verus!
