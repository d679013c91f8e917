//! Canonical list of Kubernetes resource objects for report grouping and
//! scoring, and the mapping from issue categories to them.

use vstd::prelude::*;

use crate::inspections::types::Issue;
use crate::utils::text::{str_eq, string_of, trim, trim_str};

verus! {

/// Canonical list of report resource objects (display order).
pub const REPORT_RESOURCE_ORDER: [&'static str; 21] = [
    "Node",
    "Pod",
    "Service",
    "Deployment",
    "Namespace",
    "PersistentVolume",
    "PersistentVolumeClaim",
    "StorageClass",
    "ClusterRole",
    "ClusterRoleBinding",
    "ServiceAccount",
    "NetworkPolicy",
    "Certificate",
    "CronJob",
    "Job",
    "HPA",
    "Policy",
    "Control Plane",
    "Observability",
    "Security",
    "Resource Management",
];

/// Resource key of an issue, from its trimmed category and, for batch
/// issues, its rule id.
pub open spec fn resource_key_spec(category: Seq<char>, rule_id: Option<Seq<char>>) -> Seq<char> {
    let cat = trim(category);
    if cat == "Container"@ || cat == "Pod"@ {
        "Pod"@
    } else if cat == "Batch"@ {
        if rule_id == Some("804"@) || rule_id == Some("805"@) {
            "Job"@
        } else {
            "CronJob"@
        }
    } else if cat == "Autoscaling"@ {
        "HPA"@
    } else if cat == "Certificates"@ {
        "Certificate"@
    } else if cat == "ControlPlane"@ {
        "Control Plane"@
    } else {
        cat
    }
}

pub open spec fn opt_string_view(o: Option<String>) -> Option<Seq<char>> {
    match o {
        Some(s) => Some(s@),
        None => None,
    }
}

/// Maps an issue's category (and, for batch issues, its rule id) to the
/// canonical resource object key used for grouping and scoring.
pub fn issue_to_resource_key(issue: &Issue) -> (r: String)
    ensures
        r@ == resource_key_spec(issue.category@, opt_string_view(issue.rule_id)),
{
    let cat = trim_str(issue.category.as_str());
    let cs = string_of(&cat);
    let c = cs.as_str();
    if str_eq(c, "Container") || str_eq(c, "Pod") {
        return String::from_str("Pod");
    }
    if str_eq(c, "Batch") {
        let job = match &issue.rule_id {
            Some(r) => str_eq(r.as_str(), "804") || str_eq(r.as_str(), "805"),
            None => false,
        };
        if job {
            return String::from_str("Job");
        } else {
            return String::from_str("CronJob");
        }
    }
    if str_eq(c, "Autoscaling") {
        return String::from_str("HPA");
    }
    if str_eq(c, "Certificates") {
        return String::from_str("Certificate");
    }
    if str_eq(c, "ControlPlane") {
        return String::from_str("Control Plane");
    }
    cs
}

} // verus!
