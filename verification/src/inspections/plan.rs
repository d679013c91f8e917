//! The course of an inspection run: which modules run for a requested
//! inspection type and in what order, what is logged for each, whether node
//! data is collected, and the node process issues found in that data.

use vstd::prelude::*;

use crate::cli::InspectionType;
use crate::config::NodeAccessMode;
use crate::inspections::common::{issue_view, issue_views, make_issue, push_issue, IssueSpec};
use crate::inspections::types::{Issue, IssueSeverity};
use crate::utils::lang::{fill, lang_fmt1, lang_fmt2, pick, Lang};
use crate::utils::text::{dec, owned, push_dec, push_str, u64_to_string};

verus! {

/// An inspection module.
#[derive(Debug, Clone, Copy, PartialEq, Eq, Structural)]
pub enum InspectionModule {
    Nodes,
    ControlPlane,
    Network,
    Storage,
    Resources,
    Pods,
    Autoscaling,
    Batch,
    Security,
    Policies,
    Observability,
    NamespaceSummary,
    Certificates,
    Upgrade,
}

/// The modules run for an inspection type, in order: a full run goes from
/// infrastructure to storage and resources, workloads, security and
/// policies, and operations.
pub open spec fn plan_spec(t: InspectionType) -> Seq<InspectionModule> {
    match t {
        InspectionType::All => seq![
            InspectionModule::Nodes,
            InspectionModule::ControlPlane,
            InspectionModule::Network,
            InspectionModule::Storage,
            InspectionModule::Resources,
            InspectionModule::Pods,
            InspectionModule::Autoscaling,
            InspectionModule::Batch,
            InspectionModule::Security,
            InspectionModule::Policies,
            InspectionModule::Observability,
            InspectionModule::NamespaceSummary,
            InspectionModule::Certificates,
            InspectionModule::Upgrade,
        ],
        InspectionType::Nodes => seq![InspectionModule::Nodes],
        InspectionType::Pods => seq![InspectionModule::Pods],
        InspectionType::Resources => seq![InspectionModule::Resources],
        InspectionType::Network => seq![InspectionModule::Network],
        InspectionType::Storage => seq![InspectionModule::Storage],
        InspectionType::Security => seq![InspectionModule::Security],
        InspectionType::ControlPlane => seq![InspectionModule::ControlPlane],
        InspectionType::Autoscaling => seq![InspectionModule::Autoscaling],
        InspectionType::Batch => seq![InspectionModule::Batch],
        InspectionType::Policies => seq![InspectionModule::Policies],
        InspectionType::Observability => seq![InspectionModule::Observability],
        InspectionType::Upgrade => seq![InspectionModule::Upgrade],
        InspectionType::Certificates => seq![InspectionModule::Certificates],
    }
}

pub fn inspection_plan(t: InspectionType) -> (r: Vec<InspectionModule>)
    ensures
        r@ == plan_spec(t),
{
    match t {
        InspectionType::All => vec![
            InspectionModule::Nodes,
            InspectionModule::ControlPlane,
            InspectionModule::Network,
            InspectionModule::Storage,
            InspectionModule::Resources,
            InspectionModule::Pods,
            InspectionModule::Autoscaling,
            InspectionModule::Batch,
            InspectionModule::Security,
            InspectionModule::Policies,
            InspectionModule::Observability,
            InspectionModule::NamespaceSummary,
            InspectionModule::Certificates,
            InspectionModule::Upgrade,
        ],
        InspectionType::Nodes => vec![InspectionModule::Nodes],
        InspectionType::Pods => vec![InspectionModule::Pods],
        InspectionType::Resources => vec![InspectionModule::Resources],
        InspectionType::Network => vec![InspectionModule::Network],
        InspectionType::Storage => vec![InspectionModule::Storage],
        InspectionType::Security => vec![InspectionModule::Security],
        InspectionType::ControlPlane => vec![InspectionModule::ControlPlane],
        InspectionType::Autoscaling => vec![InspectionModule::Autoscaling],
        InspectionType::Batch => vec![InspectionModule::Batch],
        InspectionType::Policies => vec![InspectionModule::Policies],
        InspectionType::Observability => vec![InspectionModule::Observability],
        InspectionType::Upgrade => vec![InspectionModule::Upgrade],
        InspectionType::Certificates => vec![InspectionModule::Certificates],
    }
}

/// The number of progress steps announced for a run.
pub fn total_steps(t: InspectionType) -> (r: usize)
    ensures
        r == if t == InspectionType::All {
            15usize
        } else {
            2usize
        },
{
    match t {
        InspectionType::All => 15,
        _ => 2,
    }
}

/// Whether node data is collected from the node inspectors in this run.
pub fn collects_node_data(t: InspectionType) -> (r: bool)
    ensures
        r == (t == InspectionType::All || t == InspectionType::Nodes),
{
    match t {
        InspectionType::All | InspectionType::Nodes => true,
        _ => false,
    }
}

pub open spec fn module_log_spec(m: InspectionModule) -> Seq<char> {
    match m {
        InspectionModule::Nodes => "▶ 执行节点健康检查"@,
        InspectionModule::ControlPlane => "▶ 执行控制平面检查"@,
        InspectionModule::Network => "▶ 执行网络检查"@,
        InspectionModule::Storage => "▶ 执行存储检查"@,
        InspectionModule::Resources => "▶ 执行资源检查"@,
        InspectionModule::Pods => "▶ 执行 Pod 检查"@,
        InspectionModule::Autoscaling => "▶ 执行自动伸缩检查"@,
        InspectionModule::Batch => "▶ 执行批处理检查"@,
        InspectionModule::Security => "▶ 执行安全检查"@,
        InspectionModule::Policies => "▶ 执行策略检查"@,
        InspectionModule::Observability => "▶ 执行可观测性检查"@,
        InspectionModule::NamespaceSummary => "▶ 执行命名空间摘要"@,
        InspectionModule::Certificates => "▶ 执行证书检查"@,
        InspectionModule::Upgrade => "▶ 执行升级就绪检查"@,
    }
}

/// The log line announcing a module.
pub fn module_log_line(m: InspectionModule) -> (r: &'static str)
    ensures
        r@ == module_log_spec(m),
{
    match m {
        InspectionModule::Nodes => "▶ 执行节点健康检查",
        InspectionModule::ControlPlane => "▶ 执行控制平面检查",
        InspectionModule::Network => "▶ 执行网络检查",
        InspectionModule::Storage => "▶ 执行存储检查",
        InspectionModule::Resources => "▶ 执行资源检查",
        InspectionModule::Pods => "▶ 执行 Pod 检查",
        InspectionModule::Autoscaling => "▶ 执行自动伸缩检查",
        InspectionModule::Batch => "▶ 执行批处理检查",
        InspectionModule::Security => "▶ 执行安全检查",
        InspectionModule::Policies => "▶ 执行策略检查",
        InspectionModule::Observability => "▶ 执行可观测性检查",
        InspectionModule::NamespaceSummary => "▶ 执行命名空间摘要",
        InspectionModule::Certificates => "▶ 执行证书检查",
        InspectionModule::Upgrade => "▶ 执行升级就绪检查",
    }
}

/// The log line announcing node collection: access mode and port.
pub fn node_collection_log(mode: NodeAccessMode, port: u16) -> (r: String)
    ensures
        r@ == "🔌 正在通过节点巡检 API（"@ + (match mode {
            NodeAccessMode::PodIp => "pod_ip"@,
            NodeAccessMode::ClusterIpService => "service"@,
        }) + ":"@ + dec(port as nat) + "/kcc/api/inspect）采集节点数据..."@,
{
    let mut s = owned("🔌 正在通过节点巡检 API（");
    match mode {
        NodeAccessMode::PodIp => push_str(&mut s, "pod_ip"),
        NodeAccessMode::ClusterIpService => push_str(&mut s, "service"),
    }
    push_str(&mut s, ":");
    push_dec(&mut s, port as u64);
    push_str(&mut s, "/kcc/api/inspect）采集节点数据...");
    s
}

/// The cluster name of a report: the one asked for, else the one of the
/// kube config context, else `default`.
pub fn cluster_name_for(requested: Option<&str>, from_client: Option<&str>) -> (r: String)
    ensures
        r@ == match requested {
            Some(n) => n@,
            None => match from_client {
                Some(c) => c@,
                None => "default"@,
            },
        },
{
    match requested {
        Some(n) => owned(n),
        None => match from_client {
            Some(c) => owned(c),
            None => owned("default"),
        },
    }
}

// ---------------------------------------------------------------------------
// Zombie processes
// ---------------------------------------------------------------------------

pub open spec fn zombie_issue(lang: Lang, node: Seq<char>, z: u32) -> IssueSpec {
    (
        IssueSeverity::Warning,
        "Node"@,
        fill(
            pick(lang, "Node {} has {} zombie process(es)"@, "节点 {} 有 {} 个僵尸进程"@),
            seq![node, dec(z as nat)],
        ),
        Some(node),
        pick(
            lang,
            "Identify parent processes and fix reaping; see 003."@,
            "识别父进程并修复回收机制；参见 003。"@,
        ),
        Some("003"@),
    )
}

/// One issue per node with zombie processes, in node order.
pub open spec fn zombie_issues_spec(lang: Lang, nodes: Seq<(String, Option<u32>)>) -> Seq<IssueSpec>
    decreases nodes.len(),
{
    if nodes.len() == 0 {
        seq![]
    } else {
        let n = nodes.last();
        zombie_issues_spec(lang, nodes.drop_last()) + match n.1 {
            Some(z) => if z > 0 {
                seq![zombie_issue(lang, n.0@, z)]
            } else {
                seq![]
            },
            None => seq![],
        }
    }
}

/// Issues for the nodes that report zombie processes, from `(node name,
/// zombie count)` of each node.
pub fn zombie_issues(lang: Lang, nodes: &Vec<(String, Option<u32>)>) -> (r: Vec<Issue>)
    ensures
        issue_views(r@) == zombie_issues_spec(lang, nodes@),
{
    let mut out: Vec<Issue> = Vec::new();
    let mut i: usize = 0;
    while i < nodes.len()
        invariant
            i <= nodes.len(),
            issue_views(out@) == zombie_issues_spec(lang, nodes@.take(i as int)),
        decreases nodes.len() - i,
    {
        proof {
            assert(nodes@.take(i as int + 1).drop_last() =~= nodes@.take(i as int));
        }
        if let Some(z) = nodes[i].1 {
            if z > 0 {
                let zs = u64_to_string(z as u64);
                let name = nodes[i].0.as_str();
                let issue = make_issue(
                    IssueSeverity::Warning,
                    "Node",
                    lang_fmt2(lang, "Node {} has {} zombie process(es)", "节点 {} 有 {} 个僵尸进程", name, zs.as_str()),
                    owned(name),
                    lang.t(
                        "Identify parent processes and fix reaping; see 003.",
                        "识别父进程并修复回收机制；参见 003。",
                    ),
                    "003",
                );
                push_issue(&mut out, issue);
            }
        }
        proof {
            assert(issue_views(out@) =~= zombie_issues_spec(lang, nodes@.take(i as int + 1)));
        }
        i = i + 1;
    }
    proof {
        assert(nodes@.take(nodes.len() as int) =~= nodes@);
    }
    out
}

/// Details line of the node process check.
pub fn zombie_details(lang: Lang, count: usize) -> (r: String)
    ensures
        r@ == fill(pick(lang, "{} node(s) with zombie processes"@, "{} 个节点存在僵尸进程"@), seq![dec(count as nat)]),
{
    let n = u64_to_string(count as u64);
    lang_fmt1(lang, "{} node(s) with zombie processes", "{} 个节点存在僵尸进程", n.as_str())
}

} // verus!
