//! Plain records produced by the inspection modules.

use vstd::prelude::*;

pub use crate::utils::status::{CheckStatus, HealthStatus, IssueSeverity};

verus! {

/// One row for the namespace summary table.
#[derive(Debug, Clone)]
pub struct NamespaceSummaryRow {
    pub name: String,
    pub pod_count: u32,
    pub deployment_count: u32,
    pub has_network_policy: bool,
    pub has_resource_quota: bool,
    pub has_limit_range: bool,
}

/// One row for the pod container state table.
#[derive(Debug, Clone)]
pub struct PodContainerStateRow {
    pub pod_ref: String,
    pub container_name: String,
    pub state_kind: String,
    pub reason: String,
    pub detail: String,
}

/// One row for the database middleware pod table (image-based detection).
#[derive(Debug, Clone)]
pub struct DbMiddlewareRow {
    pub namespace: String,
    pub pod_name: String,
    /// Matching container image (first match).
    pub image: String,
    /// Whether all containers in the pod are ready.
    pub ready: bool,
    /// Sum of restart counts across containers (init + main).
    pub restart_count: u32,
}

/// One row for the TLS certificate expiry table.
#[derive(Debug, Clone)]
pub struct CertificateExpiryRow {
    pub secret_namespace: String,
    pub secret_name: String,
    pub subject_or_cn: String,
    pub expiry_utc: String,
    pub days_until_expiry: i64,
}

/// Check counts and the issues of one inspection module.
#[derive(Debug, Clone)]
pub struct InspectionSummary {
    pub total_checks: u32,
    pub passed_checks: u32,
    pub warning_checks: u32,
    pub critical_checks: u32,
    pub error_checks: u32,
    pub issues: Vec<Issue>,
}

/// A detected issue.
#[derive(Debug, Clone)]
pub struct Issue {
    pub severity: IssueSeverity,
    pub category: String,
    pub description: String,
    pub resource: Option<String>,
    pub recommendation: String,
    /// Optional rule/check ID for grouping and documentation reference.
    pub rule_id: Option<String>,
}

/// One row for the recent cluster events table (Warning/Error).
#[derive(Debug, Clone)]
pub struct EventRow {
    pub namespace: String,
    pub object_ref: String,
    pub event_type: String,
    pub reason: String,
    pub message: String,
    pub last_seen: String,
}

/// One row for the node conditions table.
#[derive(Debug, Clone)]
pub struct NodeConditionsRow {
    pub node_name: String,
    pub ready: String,
    pub memory_pressure: String,
    pub disk_pressure: String,
    pub pid_pressure: String,
}

/// One row for the node list table in the report.
#[derive(Debug, Clone)]
pub struct NodeRow {
    pub name: String,
    pub operating_system: String,
    pub architecture: String,
    pub kubelet_version: String,
    pub ready: bool,
    /// Number of pods scheduled on this node.
    pub pod_count: u32,
    /// Node InternalIP from status.addresses.
    pub node_address: Option<String>,
    /// OS image from Node.status.nodeInfo.
    pub os_image: Option<String>,
    /// Kernel version from Node.status.nodeInfo.
    pub kernel_version: Option<String>,
    /// Container runtime from Node.status.nodeInfo (e.g. containerd://2.1.5).
    pub container_runtime_version: Option<String>,
}

/// Pod phase counts for the cluster overview.
#[derive(Debug, Clone, Default)]
pub struct PodPhaseBreakdown {
    pub running: u32,
    pub pending: u32,
    pub succeeded: u32,
    pub failed: u32,
    pub unknown: u32,
}

/// Workload controller counts and ready counts.
#[derive(Debug, Clone, Default)]
pub struct WorkloadSummary {
    pub deployments_total: u32,
    pub deployments_ready: u32,
    pub statefulsets_total: u32,
    pub statefulsets_ready: u32,
    pub daemonsets_total: u32,
    pub daemonsets_ready: u32,
}

/// Storage summary: PV, PVC, StorageClass counts.
#[derive(Debug, Clone, Default)]
pub struct StorageSummary {
    pub pv_total: u32,
    pub pvc_total: u32,
    pub pvc_bound: u32,
    pub storage_class_count: u32,
    pub has_default_storage_class: bool,
}

/// One row for the container resource usage table.
#[derive(Debug, Clone)]
pub struct ContainerUsageRow {
    pub namespace: String,
    pub pod_name: String,
    pub container_name: String,
    /// CPU used in millicores; 0 if missing.
    pub cpu_used_m: u64,
    /// CPU request in millicores; 0 if not set.
    pub cpu_request_m: u64,
    /// CPU limit in millicores; 0 if not set.
    pub cpu_limit_m: u64,
    /// Memory used in MiB; 0 if missing.
    pub mem_used_mib: u64,
    /// Memory request in MiB; 0 if not set.
    pub mem_request_mib: u64,
    /// Memory limit in MiB; 0 if not set.
    pub mem_limit_mib: u64,
    /// Why this row is notable: "high_usage" | "low_usage" | "no_request_no_limit".
    pub notable_reason: String,
}

} // verus!
