//! The scoring engine's tables: how much each inspection module and each
//! check weighs, how a check's status discounts its score, and how much
//! fixing an issue may raise a score. Weights and multipliers are in
//! tenths; the floating-point averages over them are computed by callers.

use vstd::prelude::*;

use crate::inspections::types::{CheckStatus, IssueSeverity};
use crate::utils::text::str_eq;

verus! {

/// Scoring engine (stateless).
#[derive(Debug, Clone, Copy)]
pub struct ScoringEngine;

/// Weight of an inspection module, in tenths; 10 for an unknown module.
pub open spec fn inspection_weight_spec(t: Seq<char>) -> u32 {
    if t == "Node Health"@ {
        20
    } else if t == "Pod Status"@ {
        25
    } else if t == "Security Configuration"@ {
        22
    } else if t == "Resource Usage"@ {
        18
    } else if t == "Network Connectivity"@ {
        18
    } else if t == "Storage"@ {
        15
    } else if t == "Control Plane"@ {
        25
    } else if t == "Autoscaling"@ {
        18
    } else if t == "Batch Workloads"@ {
        12
    } else if t == "Policy & Governance"@ {
        16
    } else if t == "Observability"@ {
        14
    } else if t == "Upgrade Readiness"@ {
        17
    } else {
        10
    }
}

/// Weight of a check, in tenths; 10 for an unknown check.
pub open spec fn check_weight_spec(name: Seq<char>) -> u32 {
    if name == "Node Readiness"@ {
        30
    } else if name == "Node Pressure"@ {
        20
    } else if name == "Pod Health"@ {
        30
    } else if name == "Pod Stability"@ {
        20
    } else if name == "Resource Limits"@ {
        15
    } else if name == "Resource Requests"@ {
        20
    } else if name == "Complete Resource Configuration"@ {
        15
    } else if name == "DNS Configuration"@ {
        30
    } else if name == "Service Configuration"@ {
        20
    } else if name == "Network Policy Coverage"@ {
        15
    } else if name == "Persistent Volume Health"@ {
        25
    } else if name == "PVC Binding"@ {
        20
    } else if name == "Storage Class Configuration"@ {
        15
    } else if name == "RBAC Configuration"@ {
        30
    } else if name == "Pod Security Standards"@ {
        25
    } else if name == "Service Account Usage"@ {
        15
    } else {
        10
    }
}

impl ScoringEngine {
    pub fn new() -> (r: Self) {
        ScoringEngine
    }

    /// Weight of an inspection module in the overall score, in tenths.
    pub fn inspection_weight_tenths(&self, inspection_type: &str) -> (r: u32)
        ensures
            r == inspection_weight_spec(inspection_type@),
    {
        let t = inspection_type;
        if str_eq(t, "Node Health") {
            20
        } else if str_eq(t, "Pod Status") {
            25
        } else if str_eq(t, "Security Configuration") {
            22
        } else if str_eq(t, "Resource Usage") {
            18
        } else if str_eq(t, "Network Connectivity") {
            18
        } else if str_eq(t, "Storage") {
            15
        } else if str_eq(t, "Control Plane") {
            25
        } else if str_eq(t, "Autoscaling") {
            18
        } else if str_eq(t, "Batch Workloads") {
            12
        } else if str_eq(t, "Policy & Governance") {
            16
        } else if str_eq(t, "Observability") {
            14
        } else if str_eq(t, "Upgrade Readiness") {
            17
        } else {
            10
        }
    }

    /// Weight of a check in its module's score, in tenths.
    pub fn check_weight_tenths(&self, check_name: &str) -> (r: u32)
        ensures
            r == check_weight_spec(check_name@),
    {
        let n = check_name;
        if str_eq(n, "Node Readiness") {
            30
        } else if str_eq(n, "Node Pressure") {
            20
        } else if str_eq(n, "Pod Health") {
            30
        } else if str_eq(n, "Pod Stability") {
            20
        } else if str_eq(n, "Resource Limits") {
            15
        } else if str_eq(n, "Resource Requests") {
            20
        } else if str_eq(n, "Complete Resource Configuration") {
            15
        } else if str_eq(n, "DNS Configuration") {
            30
        } else if str_eq(n, "Service Configuration") {
            20
        } else if str_eq(n, "Network Policy Coverage") {
            15
        } else if str_eq(n, "Persistent Volume Health") {
            25
        } else if str_eq(n, "PVC Binding") {
            20
        } else if str_eq(n, "Storage Class Configuration") {
            15
        } else if str_eq(n, "RBAC Configuration") {
            30
        } else if str_eq(n, "Pod Security Standards") {
            25
        } else if str_eq(n, "Service Account Usage") {
            15
        } else {
            10
        }
    }

    /// The share of a check's score that counts, by its status, in tenths:
    /// all of it when it passes, less the worse it fares.
    pub fn severity_multiplier_tenths(&self, status: CheckStatus) -> (r: u32)
        ensures
            r == match status {
                CheckStatus::Pass => 10u32,
                CheckStatus::Warning => 9u32,
                CheckStatus::Critical => 7u32,
                CheckStatus::Error => 5u32,
            },
    {
        match status {
            CheckStatus::Pass => 10,
            CheckStatus::Warning => 9,
            CheckStatus::Critical => 7,
            CheckStatus::Error => 5,
        }
    }

    /// Points that fixing an issue of a severity may add to a score.
    pub fn improvement_points(&self, severity: IssueSeverity) -> (r: u32)
        ensures
            r == match severity {
                IssueSeverity::Critical => 15u32,
                IssueSeverity::Warning => 8u32,
                IssueSeverity::Info => 2u32,
            },
    {
        match severity {
            IssueSeverity::Critical => 15,
            IssueSeverity::Warning => 8,
            IssueSeverity::Info => 2,
        }
    }
}

} // verus!
