//! Node inspection records (collected on each node by the inspector daemon).

use vstd::prelude::*;

verus! {

/// One certificate referenced by a control-plane or kubelet process.
#[derive(Debug, Clone)]
pub struct NodeCertificate {
    pub path: String,
    pub expiration_date: String,
    pub days_remaining: i64,
    pub status: String,
}

/// Service presence on a node.
#[derive(Debug, Clone)]
pub struct NodeServices {
    pub runtime: String,
    pub journald_active: Option<bool>,
    pub crontab_present: Option<bool>,
    pub ntp_synced: Option<bool>,
    pub kubelet_running: Option<bool>,
    pub container_runtime_running: Option<bool>,
    pub status: String,
    pub detail: String,
}

/// SELinux, firewall and kernel-module state of a node.
#[derive(Debug, Clone)]
pub struct NodeSecurity {
    pub selinux: Option<String>,
    pub firewalld_active: Option<bool>,
    pub ipvs_loaded: Option<bool>,
    pub br_netfilter_loaded: Option<bool>,
    pub overlay_loaded: Option<bool>,
    pub nf_conntrack_loaded: Option<bool>,
    pub nf_conntrack_count: Option<u64>,
    pub nf_conntrack_max: Option<u64>,
    pub status: String,
    pub detail: String,
}

/// Kernel parameters of a node.
#[derive(Debug, Clone)]
pub struct NodeKernel {
    pub net_ipv4_ip_forward: Option<String>,
    pub vm_swappiness: Option<String>,
    pub net_core_somaxconn: Option<String>,
    pub status: String,
    pub detail: String,
}

} // verus!
