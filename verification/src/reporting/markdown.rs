//! Assembly of the Markdown report: the node inspection section and the
//! main report, from the report's plain values and the verified table rows.

use vstd::prelude::*;

use crate::inspections::issue_codes::opt_str_view;
use crate::inspections::types::{
    CertificateExpiryRow, ContainerUsageRow, DbMiddlewareRow, EventRow, Issue, NamespaceSummaryRow,
    NodeConditionsRow, StorageSummary, WorkloadSummary,
};
use crate::reporting::generator::{
    first_some, general_info_row, info_shown, opt_owned_view, CheckLevelFilter, ReportGenerator,
};
use crate::reporting::report_resource::REPORT_RESOURCE_ORDER;
use crate::reporting::tables::{
    check_line_md, check_result_rows, concat_rows, condition_row, container_usage_row_md, container_usage_rows,
    event_row_md, event_rows, lemma_concat_rows_step, middleware_row_md, middleware_rows, namespace_row_md,
    namespace_rows, node_condition_rows, node_rows_md, node_table_row, resource_section, resource_section_md,
    separator, separator_exec, workload_rows, CheckLine, NodeTable, NodeTableRow,
};
use crate::reporting::text::{report_text, report_text_spec, ReportText};
use crate::utils::lang::{fill, fmt_dynamic, health_label_spec, str_views, Lang};
use crate::utils::status::HealthStatus;
use crate::utils::text::{dec, join, join_strings, lower_text, owned, push_str, str_eq, u64_to_string};

verus! {

// ---------------------------------------------------------------------------
// Rows of cells
// ---------------------------------------------------------------------------

/// The cells after the first of a Markdown row, each after ` | `.
pub open spec fn cells_tail(cells: Seq<Seq<char>>) -> Seq<char>
    decreases cells.len(),
{
    if cells.len() == 0 {
        seq![]
    } else {
        cells_tail(cells.drop_last()) + " | "@ + cells.last()
    }
}

/// A Markdown row whose first cell is `first`, followed by `cells`.
pub open spec fn cells_row(first: Seq<char>, cells: Seq<Seq<char>>) -> Seq<char> {
    "| "@ + first + cells_tail(cells) + " |\n"@
}

/// A Markdown row whose first cell is `first`, followed by `cells`.
pub fn md_row(first: &str, cells: &Vec<String>) -> (r: String)
    ensures
        r@ == cells_row(first@, cells.deep_view()),
{
    let ghost cv = cells.deep_view();
    let mut out = owned("| ");
    push_str(&mut out, first);
    let mut i: usize = 0;
    while i < cells.len()
        invariant
            i <= cells.len(),
            cv == cells.deep_view(),
            out@ == "| "@ + first@ + cells_tail(cv.take(i as int)),
        decreases cells.len() - i,
    {
        proof {
            assert(cv.take(i as int + 1).drop_last() =~= cv.take(i as int));
            assert(cv[i as int] == cells@[i as int]@);
        }
        push_str(&mut out, " | ");
        push_str(&mut out, cells[i].as_str());
        i = i + 1;
    }
    proof {
        assert(cv.take(cells.len() as int) =~= cv);
    }
    push_str(&mut out, " |\n");
    out
}

// ---------------------------------------------------------------------------
// Node inspection section
// ---------------------------------------------------------------------------

/// What the node inspection section shows of a node. The cells that hold
/// measured amounts (resources, disks, network) come formatted; the disk
/// rows in display order.
#[derive(Debug, Clone)]
pub struct NodeSectionData {
    pub table: NodeTableRow,
    pub api_os: Option<String>,
    pub node_os: Option<String>,
    pub address: Option<String>,
    pub api_kernel: Option<String>,
    pub node_kernel: Option<String>,
    pub uptime: Option<String>,
    pub timestamp: String,
    pub resource_cells: Vec<String>,
    pub disk_rows: Vec<Vec<String>>,
    pub network_cells: Vec<String>,
}

/// The tables of the node inspection section, in the order they appear.
#[derive(Debug, Clone, Copy, PartialEq, Eq, Structural)]
pub enum NodePart {
    General,
    Resources,
    Disks,
    ContainerStates,
    Services,
    Security,
    Network,
    Kernel,
    Certificates,
}

/// A node's row of the general information table.
pub open spec fn general_row_md(n: NodeSectionData) -> Seq<char> {
    "| "@ + n.table.node_name@ + " | "@ + first_some(opt_owned_view(n.api_os), opt_owned_view(n.node_os))
        + " | "@ + first_some(opt_owned_view(n.address), None) + " | "@ + first_some(
        opt_owned_view(n.api_kernel),
        opt_owned_view(n.node_kernel),
    ) + " | "@ + first_some(opt_owned_view(n.uptime), None) + " | "@ + (if n.timestamp@.len() == 0 {
        "-"@
    } else {
        n.timestamp@
    }) + " |\n"@
}

/// A node's disk rows: one per formatted disk row, or a row of dashes.
pub open spec fn disk_rows_md(n: NodeSectionData) -> Seq<char> {
    if n.disk_rows.len() == 0 {
        "| "@ + n.table.node_name@ + " | - | - | - | - | - | - | - |\n"@
    } else {
        concat_rows(n.disk_rows@, |d: Vec<String>| cells_row(n.table.node_name@, d.deep_view()))
    }
}

/// A node's rows in one table of the section.
pub open spec fn part_rows_md(lang: Lang, part: NodePart, n: NodeSectionData) -> Seq<char> {
    match part {
        NodePart::General => general_row_md(n),
        NodePart::Resources => cells_row(n.table.node_name@, n.resource_cells.deep_view()),
        NodePart::Disks => disk_rows_md(n),
        NodePart::ContainerStates => node_rows_md(lang, NodeTable::ContainerStates, n.table),
        NodePart::Services => node_rows_md(lang, NodeTable::Services, n.table),
        NodePart::Security => node_rows_md(lang, NodeTable::Security, n.table),
        NodePart::Network => cells_row(n.table.node_name@, n.network_cells.deep_view()),
        NodePart::Kernel => node_rows_md(lang, NodeTable::Kernel, n.table),
        NodePart::Certificates => node_rows_md(lang, NodeTable::Certificates, n.table),
    }
}

/// Title, description and header of a table of the section, with its
/// separator row.
pub open spec fn part_heading(lang: Lang, part: NodePart) -> Seq<char> {
    let t = report_text_spec(lang);
    match part {
        NodePart::General => t.node_general_info_title@ + t.node_general_info_header@ + separator(6) + "\n"@,
        NodePart::Resources => t.node_resources_title@ + t.node_resources_header@ + separator(11) + "\n"@,
        NodePart::Disks => t.node_disk_usage_title@ + t.node_disk_usage_desc@ + t.node_disk_usage_header@
            + separator(8) + "\n"@,
        NodePart::ContainerStates => t.node_container_state_title@ + t.node_container_state_header@
            + separator(4) + "\n"@,
        NodePart::Services => t.node_service_status_title@ + t.node_service_status_header@ + separator(6)
            + "\n"@,
        NodePart::Security => t.node_security_title@ + t.node_security_desc@ + t.node_security_header@
            + separator(7) + "\n"@,
        NodePart::Network => t.node_network_title@ + t.node_network_desc@ + t.node_network_header@
            + separator(6) + "\n"@,
        NodePart::Kernel => t.node_kernel_title@ + t.node_kernel_desc@ + t.node_kernel_header@ + separator(4)
            + "\n"@,
        NodePart::Certificates => t.node_certificate_title@ + t.node_certificate_header@ + separator(7)
            + "\n"@,
    }
}

/// One table of the section: heading, every node's rows, a blank line.
pub open spec fn part_block_md(lang: Lang, part: NodePart, nodes: Seq<NodeSectionData>) -> Seq<char> {
    part_heading(lang, part) + concat_rows(nodes, |n: NodeSectionData| part_rows_md(lang, part, n)) + "\n"@
}

/// The node inspection section: its title and description, then the
/// general information, resource, disk, container state, service,
/// security, network, kernel and certificate tables.
pub open spec fn node_section_spec(lang: Lang, nodes: Seq<NodeSectionData>) -> Seq<char> {
    let t = report_text_spec(lang);
    t.node_inspection_title@ + t.node_inspection_desc@ + part_block_md(lang, NodePart::General, nodes)
        + part_block_md(lang, NodePart::Resources, nodes) + part_block_md(lang, NodePart::Disks, nodes)
        + part_block_md(lang, NodePart::ContainerStates, nodes) + part_block_md(
        lang,
        NodePart::Services,
        nodes,
    ) + part_block_md(lang, NodePart::Security, nodes) + part_block_md(lang, NodePart::Network, nodes)
        + part_block_md(lang, NodePart::Kernel, nodes) + part_block_md(lang, NodePart::Certificates, nodes)
}

fn opt_ref(o: &Option<String>) -> (r: Option<&str>)
    ensures
        opt_str_view(r) == opt_owned_view(*o),
{
    match o {
        Some(s) => Some(s.as_str()),
        None => None,
    }
}

fn disk_lines(n: &NodeSectionData) -> (r: String)
    ensures
        r@ == disk_rows_md(*n),
{
    if n.disk_rows.len() == 0 {
        let mut out = owned("| ");
        push_str(&mut out, n.table.node_name.as_str());
        push_str(&mut out, " | - | - | - | - | - | - | - |\n");
        return out;
    }
    let ghost row = |d: Vec<String>| cells_row(n.table.node_name@, d.deep_view());
    let mut out = String::new();
    let mut i: usize = 0;
    while i < n.disk_rows.len()
        invariant
            i <= n.disk_rows.len(),
            row == (|d: Vec<String>| cells_row(n.table.node_name@, d.deep_view())),
            out@ == concat_rows(n.disk_rows@.take(i as int), row),
        decreases n.disk_rows.len() - i,
    {
        proof {
            lemma_concat_rows_step(n.disk_rows@, row, i as int);
        }
        let line = md_row(n.table.node_name.as_str(), &n.disk_rows[i]);
        push_str(&mut out, line.as_str());
        i = i + 1;
    }
    proof {
        assert(n.disk_rows@.take(n.disk_rows.len() as int) =~= n.disk_rows@);
    }
    out
}

fn part_rows(lang: Lang, part: NodePart, n: &NodeSectionData) -> (r: String)
    ensures
        r@ == part_rows_md(lang, part, *n),
{
    match part {
        NodePart::General => general_info_row(
            n.table.node_name.as_str(),
            opt_ref(&n.api_os),
            opt_ref(&n.node_os),
            opt_ref(&n.address),
            opt_ref(&n.api_kernel),
            opt_ref(&n.node_kernel),
            opt_ref(&n.uptime),
            n.timestamp.as_str(),
        ),
        NodePart::Resources => md_row(n.table.node_name.as_str(), &n.resource_cells),
        NodePart::Disks => disk_lines(n),
        NodePart::ContainerStates => node_table_row(lang, &n.table, NodeTable::ContainerStates),
        NodePart::Services => node_table_row(lang, &n.table, NodeTable::Services),
        NodePart::Security => node_table_row(lang, &n.table, NodeTable::Security),
        NodePart::Network => md_row(n.table.node_name.as_str(), &n.network_cells),
        NodePart::Kernel => node_table_row(lang, &n.table, NodeTable::Kernel),
        NodePart::Certificates => node_table_row(lang, &n.table, NodeTable::Certificates),
    }
}

fn part_heading_text(t: &ReportText, lang: Lang, part: NodePart) -> (r: String)
    requires
        *t == report_text_spec(lang),
    ensures
        r@ == part_heading(lang, part),
{
    let (a, b, c, cols): (&str, &str, &str, usize) = match part {
        NodePart::General => (t.node_general_info_title, "", t.node_general_info_header, 6),
        NodePart::Resources => (t.node_resources_title, "", t.node_resources_header, 11),
        NodePart::Disks => (t.node_disk_usage_title, t.node_disk_usage_desc, t.node_disk_usage_header, 8),
        NodePart::ContainerStates => (t.node_container_state_title, "", t.node_container_state_header, 4),
        NodePart::Services => (t.node_service_status_title, "", t.node_service_status_header, 6),
        NodePart::Security => (t.node_security_title, t.node_security_desc, t.node_security_header, 7),
        NodePart::Network => (t.node_network_title, t.node_network_desc, t.node_network_header, 6),
        NodePart::Kernel => (t.node_kernel_title, t.node_kernel_desc, t.node_kernel_header, 4),
        NodePart::Certificates => (t.node_certificate_title, "", t.node_certificate_header, 7),
    };
    let mut out = owned(a);
    push_str(&mut out, b);
    push_str(&mut out, c);
    push_str(&mut out, separator_exec(cols).as_str());
    proof {
        reveal_strlit("");
        assert(a@ + ""@ =~= a@);
    }
    out
}

fn part_block(t: &ReportText, lang: Lang, part: NodePart, nodes: &Vec<NodeSectionData>) -> (r: String)
    requires
        *t == report_text_spec(lang),
    ensures
        r@ == part_block_md(lang, part, nodes@),
{
    let ghost row = |n: NodeSectionData| part_rows_md(lang, part, n);
    let mut out = part_heading_text(t, lang, part);
    let ghost head = out@;
    let mut i: usize = 0;
    while i < nodes.len()
        invariant
            i <= nodes.len(),
            row == (|n: NodeSectionData| part_rows_md(lang, part, n)),
            head == part_heading(lang, part),
            out@ == head + concat_rows(nodes@.take(i as int), row),
        decreases nodes.len() - i,
    {
        proof {
            lemma_concat_rows_step(nodes@, row, i as int);
        }
        let line = part_rows(lang, part, &nodes[i]);
        push_str(&mut out, line.as_str());
        i = i + 1;
    }
    proof {
        assert(nodes@.take(nodes.len() as int) =~= nodes@);
    }
    push_str(&mut out, "\n");
    out
}

/// The node inspection section of the report (see [`node_section_spec`]).
pub fn node_inspection_section(lang: Lang, nodes: &Vec<NodeSectionData>) -> (s: String)
    ensures
        s@ == node_section_spec(lang, nodes@),
{
    let t = report_text(lang);
    let mut out = owned(t.node_inspection_title);
    push_str(&mut out, t.node_inspection_desc);
    push_str(&mut out, part_block(&t, lang, NodePart::General, nodes).as_str());
    push_str(&mut out, part_block(&t, lang, NodePart::Resources, nodes).as_str());
    push_str(&mut out, part_block(&t, lang, NodePart::Disks, nodes).as_str());
    push_str(&mut out, part_block(&t, lang, NodePart::ContainerStates, nodes).as_str());
    push_str(&mut out, part_block(&t, lang, NodePart::Services, nodes).as_str());
    push_str(&mut out, part_block(&t, lang, NodePart::Security, nodes).as_str());
    push_str(&mut out, part_block(&t, lang, NodePart::Network, nodes).as_str());
    push_str(&mut out, part_block(&t, lang, NodePart::Kernel, nodes).as_str());
    push_str(&mut out, part_block(&t, lang, NodePart::Certificates, nodes).as_str());
    out
}


// ---------------------------------------------------------------------------
// Main report
// ---------------------------------------------------------------------------

/// What the overview section shows of the cluster.
#[derive(Debug, Clone)]
pub struct OverviewData {
    pub cluster_version: Option<String>,
    pub node_count: u64,
    pub ready_node_count: u64,
    pub pod_count: Option<u64>,
    pub namespace_count: Option<u64>,
    pub cluster_age_days: Option<u64>,
    /// The container runtime version of each node of the node list.
    pub runtimes: Vec<Option<String>>,
    pub node_conditions: Option<Vec<NodeConditionsRow>>,
    pub workload: Option<WorkloadSummary>,
    pub storage: Option<StorageSummary>,
    pub metrics_available: Option<bool>,
    pub container_usage: Option<Vec<ContainerUsageRow>>,
}

/// What the main report shows: plain values, with the overall score and
/// the generation time already formatted.
#[derive(Debug, Clone)]
pub struct ReportData {
    pub cluster_name: String,
    pub report_id: String,
    pub generated_at: String,
    pub health_status: HealthStatus,
    pub overall_score: String,
    pub overview: Option<OverviewData>,
    pub nodes: Option<Vec<NodeSectionData>>,
    pub events: Option<Vec<EventRow>>,
    pub middleware: Option<Vec<DbMiddlewareRow>>,
    /// Every check of every inspection, in order.
    pub checks: Vec<CheckLine>,
    pub namespace_rows: Option<Vec<NamespaceSummaryRow>>,
    /// Every issue of every inspection, in order.
    pub issues: Vec<Issue>,
    pub certificates: Option<Vec<CertificateExpiryRow>>,
}

/// The cluster name as the report shows it: the generic "kubernetes" (any
/// case) as "default".
pub open spec fn display_name_spec(n: Seq<char>) -> Seq<char> {
    if lower_text(n) == "kubernetes"@ {
        "default"@
    } else {
        n
    }
}

/// Title, report ID, cluster and generation time.
pub open spec fn header_md(lang: Lang, r: ReportData) -> Seq<char> {
    let t = report_text_spec(lang);
    let name = display_name_spec(r.cluster_name@);
    fill(t.title_fmt@, seq![name]) + fill(t.report_id_label@, seq![r.report_id@]) + fill(
        t.cluster_label@,
        seq![name],
    ) + fill(t.generated_at_label@, seq![r.generated_at@])
}

/// The distinct non-empty runtime versions, in order of first appearance.
pub open spec fn distinct_runtimes(vs: Seq<Option<String>>) -> Seq<Seq<char>>
    decreases vs.len(),
{
    if vs.len() == 0 {
        seq![]
    } else {
        let prev = distinct_runtimes(vs.drop_last());
        match vs.last() {
            Some(v) => if v@.len() > 0 && !prev.contains(v@) {
                prev.push(v@)
            } else {
                prev
            },
            None => prev,
        }
    }
}

/// The sign shown beside a health status.
pub open spec fn health_emoji(s: HealthStatus) -> Seq<char> {
    match s {
        HealthStatus::Excellent => "🟢"@,
        HealthStatus::Good => "🟡"@,
        HealthStatus::Fair => "🟠"@,
        HealthStatus::Poor => "🔴"@,
        HealthStatus::Critical => "🚨"@,
    }
}

/// A metric line for a value that may be missing: nothing without it.
pub open spec fn opt_line(template: Seq<char>, v: Option<u64>) -> Seq<char> {
    match v {
        Some(x) => fill(template, seq![dec(x as nat)]),
        None => seq![],
    }
}

/// The cluster version line, nothing without a version.
pub open spec fn version_md(lang: Lang, o: OverviewData) -> Seq<char> {
    match o.cluster_version {
        Some(v) => fill(report_text_spec(lang).cluster_version_label@, seq![v@]),
        None => seq![],
    }
}

/// The container runtime line, nothing without any runtime version.
pub open spec fn runtimes_md(lang: Lang, o: OverviewData) -> Seq<char> {
    let rts = distinct_runtimes(o.runtimes@);
    if rts.len() > 0 {
        fill(report_text_spec(lang).container_runtime_label@, seq![join(rts, ", "@)])
    } else {
        seq![]
    }
}

/// The overall health line: sign, label and score.
pub open spec fn health_md(lang: Lang, r: ReportData) -> Seq<char> {
    fill(
        report_text_spec(lang).overall_health_fmt@,
        seq![health_emoji(r.health_status), health_label_spec(lang, r.health_status), r.overall_score@],
    )
}

/// The metric table of the overview: version, counts, age, runtimes and
/// overall health.
pub open spec fn metrics_md(lang: Lang, r: ReportData, o: OverviewData) -> Seq<char> {
    let t = report_text_spec(lang);
    t.metric_value_header@ + (separator(2) + "\n"@) + version_md(lang, o) + fill(
        t.node_count_label@,
        seq![dec(o.node_count as nat)],
    ) + fill(t.ready_nodes_label@, seq![dec(o.ready_node_count as nat)]) + opt_line(t.pod_count_label@, o.pod_count)
        + opt_line(t.namespace_count_label@, o.namespace_count) + opt_line(t.cluster_age_label@, o.cluster_age_days)
        + runtimes_md(lang, o) + health_md(lang, r) + "\n"@
}

/// The node conditions table, nothing without conditions.
pub open spec fn conditions_md(lang: Lang, o: OverviewData) -> Seq<char> {
    let t = report_text_spec(lang);
    match o.node_conditions {
        Some(c) => if c.len() > 0 {
            t.node_conditions_title@ + t.node_conditions_header@ + (separator(5) + "\n"@) + concat_rows(
                c@,
                |c: NodeConditionsRow| condition_row(lang, c),
            ) + "\n"@
        } else {
            seq![]
        },
        None => seq![],
    }
}

/// The workload table, nothing without a workload summary.
pub open spec fn workload_part_md(lang: Lang, o: OverviewData) -> Seq<char> {
    let t = report_text_spec(lang);
    match o.workload {
        Some(w) => t.workload_title@ + t.workload_header@ + (separator(3) + "\n"@) + workload_md(w),
        None => seq![],
    }
}

/// The notable container usage table: only with metrics available and
/// rows to show.
pub open spec fn usage_md(lang: Lang, o: OverviewData) -> Seq<char> {
    let t = report_text_spec(lang);
    match o.container_usage {
        Some(u) => if o.metrics_available == Some(true) && u.len() > 0 {
            t.container_usage_title@ + t.container_usage_desc@ + t.container_usage_header@ + (separator(10)
                + "\n"@) + concat_rows(u@, |c: ContainerUsageRow| container_usage_row_md(lang, c)) + "\n"@
        } else {
            seq![]
        },
        None => seq![],
    }
}

/// Node conditions, workloads, storage and notable container usage.
pub open spec fn overview_tables_md(lang: Lang, o: OverviewData) -> Seq<char> {
    conditions_md(lang, o) + workload_part_md(lang, o) + (match o.storage {
        Some(s) => storage_md(lang, s),
        None => seq![],
    }) + usage_md(lang, o)
}

/// The three rows of the workload table.
pub open spec fn workload_md(w: WorkloadSummary) -> Seq<char> {
    "| Deployment | "@ + dec(w.deployments_total as nat) + " | "@ + dec(w.deployments_ready as nat)
        + " |\n| StatefulSet | "@ + dec(w.statefulsets_total as nat) + " | "@ + dec(w.statefulsets_ready as nat)
        + " |\n| DaemonSet | "@ + dec(w.daemonsets_total as nat) + " | "@ + dec(w.daemonsets_ready as nat)
        + " |\n\n"@
}

/// The storage summary table.
pub open spec fn storage_md(lang: Lang, s: StorageSummary) -> Seq<char> {
    let t = report_text_spec(lang);
    t.storage_title@ + t.metric_value_header@ + (separator(2) + "\n"@) + fill(
        t.pv_total_label@,
        seq![dec(s.pv_total as nat)],
    ) + fill(t.pvc_total_label@, seq![dec(s.pvc_total as nat)]) + fill(
        t.pvc_bound_label@,
        seq![dec(s.pvc_bound as nat)],
    ) + fill(t.storage_class_count_label@, seq![dec(s.storage_class_count as nat)]) + fill(
        t.default_storage_class_label@,
        seq![
            if s.has_default_storage_class {
                t.yes_label@
            } else {
                t.no_label@
            },
        ],
    )
}

/// The overview section, or its note when the overview is missing.
pub open spec fn overview_md(lang: Lang, r: ReportData) -> Seq<char> {
    let t = report_text_spec(lang);
    t.cluster_overview_title@ + match r.overview {
        Some(o) => metrics_md(lang, r, o) + overview_tables_md(lang, o),
        None => t.overview_unavailable@,
    }
}

/// The node inspection section, or its note when no node has data.
pub open spec fn nodes_md(lang: Lang, r: ReportData) -> Seq<char> {
    let t = report_text_spec(lang);
    match r.nodes {
        Some(ns) => if ns.len() > 0 {
            node_section_spec(lang, ns@)
        } else {
            t.node_inspection_title@ + t.node_inspection_no_data@
        },
        None => t.node_inspection_title@ + t.node_inspection_no_data@,
    }
}

/// The recent events table, nothing without events.
pub open spec fn recent_events_md(lang: Lang, r: ReportData) -> Seq<char> {
    let t = report_text_spec(lang);
    match r.events {
        Some(e) => if e.len() > 0 {
            t.events_title@ + t.events_header@ + (separator(6) + "\n"@) + concat_rows(
                e@,
                |e: EventRow| event_row_md(lang, e),
            ) + "\n"@
        } else {
            seq![]
        },
        None => seq![],
    }
}

/// The database middleware table, or its note when none was found.
pub open spec fn middleware_md(lang: Lang, r: ReportData) -> Seq<char> {
    let t = report_text_spec(lang);
    match r.middleware {
        Some(m) => if m.len() > 0 {
            t.db_middleware_desc@ + t.db_middleware_header@ + (separator(5) + "\n"@) + concat_rows(
                m@,
                |m: DbMiddlewareRow| middleware_row_md(lang, m),
            ) + "\n"@
        } else {
            t.db_middleware_none@
        },
        None => t.db_middleware_none@,
    }
}

/// Recent events, then the middleware section.
pub open spec fn events_md(lang: Lang, r: ReportData) -> Seq<char> {
    recent_events_md(lang, r) + report_text_spec(lang).db_middleware_title@ + middleware_md(lang, r)
}

/// The check results table and the namespace summary.
pub open spec fn checks_md(lang: Lang, r: ReportData, filter: CheckLevelFilter) -> Seq<char> {
    let t = report_text_spec(lang);
    t.detailed_results_title@ + t.check_results_title@ + t.check_results_header@ + separator(5) + "\n"@
        + concat_rows(r.checks@, |c: CheckLine| check_line_md(lang, filter, c)) + "\n"@ + match r.namespace_rows {
        Some(n) => if n.len() > 0 {
            t.namespace_summary_title@ + t.namespace_summary_header@ + separator(6) + "\n"@ + concat_rows(
                n@,
                |n: NamespaceSummaryRow| namespace_row_md(lang, n),
            ) + "\n"@
        } else {
            seq![]
        },
        None => seq![],
    }
}

/// The section of every resource, in the report's resource order.
pub open spec fn resources_md(lang: Lang, r: ReportData, filter: CheckLevelFilter) -> Seq<char> {
    let t = report_text_spec(lang);
    let certs = cert_view(r.certificates);
    concat_rows(
        REPORT_RESOURCE_ORDER@,
        |res: &str|
            resource_section_md(
                lang,
                res@,
                r.issues@,
                certs,
                info_shown(filter),
                (t.tls_cert_expiry_title@, t.tls_cert_header@, t.issue_table_header@),
            ),
    )
}

pub open spec fn cert_view(c: Option<Vec<CertificateExpiryRow>>) -> Option<Seq<CertificateExpiryRow>> {
    match c {
        Some(c) => Some(c@),
        None => None,
    }
}

/// The main Markdown report.
pub open spec fn main_report_spec(lang: Lang, r: ReportData, filter: CheckLevelFilter) -> Seq<char> {
    header_md(lang, r) + overview_md(lang, r) + nodes_md(lang, r) + events_md(lang, r) + checks_md(
        lang,
        r,
        filter,
    ) + resources_md(lang, r, filter) + "---\n\n"@ + report_text_spec(lang).footer@
}


fn fill1(template: &str, a: &str) -> (r: String)
    ensures
        r@ == fill(template@, seq![a@]),
{
    let args: [&str; 1] = [a];
    let r = fmt_dynamic(template, args.as_slice());
    proof {
        assert(str_views(args@) =~= seq![a@]);
    }
    r
}

fn fill3(template: &str, a: &str, b: &str, c: &str) -> (r: String)
    ensures
        r@ == fill(template@, seq![a@, b@, c@]),
{
    let args: [&str; 3] = [a, b, c];
    let r = fmt_dynamic(template, args.as_slice());
    proof {
        assert(str_views(args@) =~= seq![a@, b@, c@]);
    }
    r
}

fn fill_dec(template: &str, n: u64) -> (r: String)
    ensures
        r@ == fill(template@, seq![dec(n as nat)]),
{
    let s = u64_to_string(n);
    fill1(template, s.as_str())
}


fn header(lang: Lang, t: &ReportText, r: &ReportData) -> (s: String)
    requires
        *t == report_text_spec(lang),
    ensures
        s@ == header_md(lang, *r),
{
    let name = ReportGenerator::with_lang(lang).cluster_display_name(r.cluster_name.as_str());
    let mut out = fill1(t.title_fmt, name.as_str());
    push_str(&mut out, fill1(t.report_id_label, r.report_id.as_str()).as_str());
    push_str(&mut out, fill1(t.cluster_label, name.as_str()).as_str());
    push_str(&mut out, fill1(t.generated_at_label, r.generated_at.as_str()).as_str());
    out
}

fn runtime_versions(vs: &Vec<Option<String>>) -> (r: Vec<String>)
    ensures
        r@.map_values(|s: String| s@) == distinct_runtimes(vs@),
{
    let mut out: Vec<String> = Vec::new();
    let mut i: usize = 0;
    while i < vs.len()
        invariant
            i <= vs.len(),
            out@.map_values(|s: String| s@) == distinct_runtimes(vs@.take(i as int)),
        decreases vs.len() - i,
    {
        proof {
            assert(vs@.take(i as int + 1).drop_last() =~= vs@.take(i as int));
        }
        let ghost prev = out@.map_values(|s: String| s@);
        match &vs[i] {
            Some(v) => {
                if v.as_str().unicode_len() > 0 {
                    let mut seen = false;
                    let mut j: usize = 0;
                    while j < out.len()
                        invariant
                            j <= out.len(),
                            prev == out@.map_values(|s: String| s@),
                            seen == exists|k: int| 0 <= k < j && #[trigger] prev[k] == v@,
                        decreases out.len() - j,
                    {
                        if str_eq(out[j].as_str(), v.as_str()) {
                            seen = true;
                        }
                        proof {
                            assert(prev[j as int] == out@[j as int]@);
                        }
                        j = j + 1;
                    }
                    proof {
                        if prev.contains(v@) {
                            let k = choose|k: int| 0 <= k < prev.len() && prev[k] == v@;
                            assert(prev[k] == v@);
                        }
                    }
                    if !seen {
                        out.push(v.clone());
                        proof {
                            assert(out@.map_values(|s: String| s@) =~= prev.push(v@));
                        }
                    }
                }
            },
            None => {},
        }
        i = i + 1;
    }
    proof {
        assert(vs@.take(vs.len() as int) =~= vs@);
    }
    out
}

fn opt_dec_line(template: &str, v: Option<u64>) -> (r: String)
    ensures
        r@ == opt_line(template@, v),
{
    match v {
        Some(n) => fill_dec(template, n),
        None => String::new(),
    }
}

fn version_line(lang: Lang, t: &ReportText, o: &OverviewData) -> (r: String)
    requires
        *t == report_text_spec(lang),
    ensures
        r@ == version_md(lang, *o),
{
    match &o.cluster_version {
        Some(v) => fill1(t.cluster_version_label, v.as_str()),
        None => String::new(),
    }
}

fn runtimes_line(lang: Lang, t: &ReportText, o: &OverviewData) -> (r: String)
    requires
        *t == report_text_spec(lang),
    ensures
        r@ == runtimes_md(lang, *o),
{
    let rts = runtime_versions(&o.runtimes);
    if rts.len() > 0 {
        let joined = join_strings(&rts, ", ");
        fill1(t.container_runtime_label, joined.as_str())
    } else {
        String::new()
    }
}

fn health_line(lang: Lang, t: &ReportText, r: &ReportData) -> (s: String)
    requires
        *t == report_text_spec(lang),
    ensures
        s@ == health_md(lang, *r),
{
    let emoji = match r.health_status {
        HealthStatus::Excellent => "🟢",
        HealthStatus::Good => "🟡",
        HealthStatus::Fair => "🟠",
        HealthStatus::Poor => "🔴",
        HealthStatus::Critical => "🚨",
    };
    let label = lang.health_label(&r.health_status);
    fill3(t.overall_health_fmt, emoji, label, r.overall_score.as_str())
}

fn metrics(lang: Lang, t: &ReportText, r: &ReportData, o: &OverviewData) -> (s: String)
    requires
        *t == report_text_spec(lang),
    ensures
        s@ == metrics_md(lang, *r, *o),
{
    let mut out = owned(t.metric_value_header);
    push_str(&mut out, separator_exec(2).as_str());
    push_str(&mut out, version_line(lang, t, o).as_str());
    push_str(&mut out, fill_dec(t.node_count_label, o.node_count).as_str());
    push_str(&mut out, fill_dec(t.ready_nodes_label, o.ready_node_count).as_str());
    push_str(&mut out, opt_dec_line(t.pod_count_label, o.pod_count).as_str());
    push_str(&mut out, opt_dec_line(t.namespace_count_label, o.namespace_count).as_str());
    push_str(&mut out, opt_dec_line(t.cluster_age_label, o.cluster_age_days).as_str());
    push_str(&mut out, runtimes_line(lang, t, o).as_str());
    push_str(&mut out, health_line(lang, t, r).as_str());
    push_str(&mut out, "\n");
    out
}

fn storage(lang: Lang, t: &ReportText, s: &StorageSummary) -> (r: String)
    requires
        *t == report_text_spec(lang),
    ensures
        r@ == storage_md(lang, *s),
{
    let mut out = owned(t.storage_title);
    push_str(&mut out, t.metric_value_header);
    push_str(&mut out, separator_exec(2).as_str());
    push_str(&mut out, fill_dec(t.pv_total_label, s.pv_total as u64).as_str());
    push_str(&mut out, fill_dec(t.pvc_total_label, s.pvc_total as u64).as_str());
    push_str(&mut out, fill_dec(t.pvc_bound_label, s.pvc_bound as u64).as_str());
    push_str(&mut out, fill_dec(t.storage_class_count_label, s.storage_class_count as u64).as_str());
    let yn = if s.has_default_storage_class {
        t.yes_label
    } else {
        t.no_label
    };
    push_str(&mut out, fill1(t.default_storage_class_label, yn).as_str());
    out
}

fn conditions_part(lang: Lang, t: &ReportText, o: &OverviewData) -> (r: String)
    requires
        *t == report_text_spec(lang),
    ensures
        r@ == conditions_md(lang, *o),
{
    match &o.node_conditions {
        Some(c) => if c.len() > 0 {
            let mut out = owned(t.node_conditions_title);
            push_str(&mut out, t.node_conditions_header);
            push_str(&mut out, separator_exec(5).as_str());
            push_str(&mut out, node_condition_rows(lang, c).as_str());
            push_str(&mut out, "\n");
            return out;
        },
        None => {},
    }
    String::new()
}

fn workload_part(lang: Lang, t: &ReportText, o: &OverviewData) -> (r: String)
    requires
        *t == report_text_spec(lang),
    ensures
        r@ == workload_part_md(lang, *o),
{
    match &o.workload {
        Some(w) => {
            let mut out = owned(t.workload_title);
            push_str(&mut out, t.workload_header);
            push_str(&mut out, separator_exec(3).as_str());
            push_str(&mut out, workload_rows(w).as_str());
            out
        },
        None => String::new(),
    }
}

fn usage_part(lang: Lang, t: &ReportText, o: &OverviewData) -> (r: String)
    requires
        *t == report_text_spec(lang),
    ensures
        r@ == usage_md(lang, *o),
{
    match &o.container_usage {
        Some(u) => {
            let metrics_on = match o.metrics_available {
                Some(b) => b,
                None => false,
            };
            if metrics_on && u.len() > 0 {
                let mut out = owned(t.container_usage_title);
                push_str(&mut out, t.container_usage_desc);
                push_str(&mut out, t.container_usage_header);
                push_str(&mut out, separator_exec(10).as_str());
                push_str(&mut out, container_usage_rows(lang, u).as_str());
                push_str(&mut out, "\n");
                return out;
            }
        },
        None => {},
    }
    String::new()
}

fn overview_tables(lang: Lang, t: &ReportText, o: &OverviewData) -> (r: String)
    requires
        *t == report_text_spec(lang),
    ensures
        r@ == overview_tables_md(lang, *o),
{
    let mut out = conditions_part(lang, t, o);
    push_str(&mut out, workload_part(lang, t, o).as_str());
    match &o.storage {
        Some(s) => push_str(&mut out, storage(lang, t, s).as_str()),
        None => {},
    }
    push_str(&mut out, usage_part(lang, t, o).as_str());
    out
}

fn overview(lang: Lang, t: &ReportText, r: &ReportData) -> (s: String)
    requires
        *t == report_text_spec(lang),
    ensures
        s@ == overview_md(lang, *r),
{
    let mut out = owned(t.cluster_overview_title);
    match &r.overview {
        Some(o) => {
            push_str(&mut out, metrics(lang, t, r, o).as_str());
            push_str(&mut out, overview_tables(lang, t, o).as_str());
        },
        None => push_str(&mut out, t.overview_unavailable),
    }
    out
}

fn nodes_part(lang: Lang, t: &ReportText, r: &ReportData) -> (s: String)
    requires
        *t == report_text_spec(lang),
    ensures
        s@ == nodes_md(lang, *r),
{
    match &r.nodes {
        Some(ns) => if ns.len() > 0 {
            return node_inspection_section(lang, ns);
        },
        None => {},
    }
    let mut out = owned(t.node_inspection_title);
    push_str(&mut out, t.node_inspection_no_data);
    out
}

fn recent_events(lang: Lang, t: &ReportText, r: &ReportData) -> (s: String)
    requires
        *t == report_text_spec(lang),
    ensures
        s@ == recent_events_md(lang, *r),
{
    match &r.events {
        Some(e) => if e.len() > 0 {
            let mut out = owned(t.events_title);
            push_str(&mut out, t.events_header);
            push_str(&mut out, separator_exec(6).as_str());
            push_str(&mut out, event_rows(lang, e).as_str());
            push_str(&mut out, "\n");
            return out;
        },
        None => {},
    }
    String::new()
}

fn middleware_part(lang: Lang, t: &ReportText, r: &ReportData) -> (s: String)
    requires
        *t == report_text_spec(lang),
    ensures
        s@ == middleware_md(lang, *r),
{
    match &r.middleware {
        Some(m) => if m.len() > 0 {
            let mut out = owned(t.db_middleware_desc);
            push_str(&mut out, t.db_middleware_header);
            push_str(&mut out, separator_exec(5).as_str());
            push_str(&mut out, middleware_rows(lang, m).as_str());
            push_str(&mut out, "\n");
            return out;
        },
        None => {},
    }
    owned(t.db_middleware_none)
}

fn events_part(lang: Lang, t: &ReportText, r: &ReportData) -> (s: String)
    requires
        *t == report_text_spec(lang),
    ensures
        s@ == events_md(lang, *r),
{
    let mut out = recent_events(lang, t, r);
    push_str(&mut out, t.db_middleware_title);
    push_str(&mut out, middleware_part(lang, t, r).as_str());
    out
}

fn checks_part(lang: Lang, t: &ReportText, r: &ReportData, filter: &CheckLevelFilter) -> (s: String)
    requires
        *t == report_text_spec(lang),
    ensures
        s@ == checks_md(lang, *r, *filter),
{
    let mut out = owned(t.detailed_results_title);
    push_str(&mut out, t.check_results_title);
    push_str(&mut out, t.check_results_header);
    push_str(&mut out, separator_exec(5).as_str());
    push_str(&mut out, check_result_rows(lang, &r.checks, filter).as_str());
    push_str(&mut out, "\n");
    match &r.namespace_rows {
        Some(n) => if n.len() > 0 {
            push_str(&mut out, t.namespace_summary_title);
            push_str(&mut out, t.namespace_summary_header);
            push_str(&mut out, separator_exec(6).as_str());
            push_str(&mut out, namespace_rows(lang, n).as_str());
            push_str(&mut out, "\n");
        },
        None => {},
    }
    proof {
        reveal_strlit("");
    }
    out
}

fn resources_part(lang: Lang, t: &ReportText, r: &ReportData, filter: &CheckLevelFilter) -> (s: String)
    requires
        *t == report_text_spec(lang),
    ensures
        s@ == resources_md(lang, *r, *filter),
{
    let ghost certs = cert_view(r.certificates);
    let show_info = filter.includes_info();
    let ghost row = |res: &str|
        resource_section_md(
            lang,
            res@,
            r.issues@,
            certs,
            show_info,
            (t.tls_cert_expiry_title@, t.tls_cert_header@, t.issue_table_header@),
        );
    let order = REPORT_RESOURCE_ORDER;
    let mut out = String::new();
    let mut i: usize = 0;
    while i < order.len()
        invariant
            i <= order.len(),
            order@ == REPORT_RESOURCE_ORDER@,
            certs == cert_view(r.certificates),
            row == (|res: &str|
                resource_section_md(
                    lang,
                    res@,
                    r.issues@,
                    certs,
                    show_info,
                    (t.tls_cert_expiry_title@, t.tls_cert_header@, t.issue_table_header@),
                )),
            out@ == concat_rows(order@.take(i as int), row),
        decreases order.len() - i,
    {
        proof {
            lemma_concat_rows_step(order@, row, i as int);
        }
        let cs = r.certificates.as_ref();
        proof {
            assert(match cs {
                Some(c) => Some(c@),
                None => None,
            } == certs);
        }
        let res = order[i];
        let part = resource_section(
            lang,
            res,
            &r.issues,
            cs,
            show_info,
            t.tls_cert_expiry_title,
            t.tls_cert_header,
            t.issue_table_header,
        );
        proof {
            assert(res == order@[i as int]);
            assert(part@ == row(order@[i as int]));
        }
        push_str(&mut out, part.as_str());
        i = i + 1;
    }
    proof {
        assert(order@.take(order.len() as int) =~= order@);
    }
    out
}

/// The main Markdown report: title and identification, the cluster
/// overview, the node inspection section, recent events and database
/// middleware, the check results (as the level filter selects) and
/// namespace summary, each resource's certificate and issue tables (issues
/// of Info severity as the filter selects), and the footer.
pub fn main_report(lang: Lang, r: &ReportData, filter: &CheckLevelFilter) -> (md: String)
    ensures
        md@ == main_report_spec(lang, *r, *filter),
{
    let t = report_text(lang);
    let mut out = header(lang, &t, r);
    push_str(&mut out, overview(lang, &t, r).as_str());
    push_str(&mut out, nodes_part(lang, &t, r).as_str());
    push_str(&mut out, events_part(lang, &t, r).as_str());
    push_str(&mut out, checks_part(lang, &t, r, filter).as_str());
    push_str(&mut out, resources_part(lang, &t, r, filter).as_str());
    push_str(&mut out, "---\n\n");
    push_str(&mut out, t.footer);
    out
}

} // verus!
