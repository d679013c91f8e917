//! Rows of the report's Markdown tables: each table's rows as text, one
//! line per record, with the cells the report shows for it.

use vstd::prelude::*;

use std::borrow::Cow;

use crate::inspections::common::{or_default, str_or};
use crate::inspections::issue_codes::strip_prefix_spec;
use crate::inspections::types::{
    CertificateExpiryRow, CheckStatus, ContainerUsageRow, DbMiddlewareRow, EventRow, Issue, IssueSeverity,
    NamespaceSummaryRow, NodeConditionsRow, WorkloadSummary,
};
use crate::node_inspection::types::{NodeCertificate, NodeKernel, NodeSecurity, NodeServices};
use crate::reporting::findings::{group_issues, group_view, group_views, groups_of, GroupSpec, IssueGroup};
use crate::reporting::generator::{
    code_cell, host_path_display, host_path_spec, slug_raw, slugify, trim_dashes, CheckLevelFilter,
};
use crate::reporting::report_resource::{issue_to_resource_key, opt_string_view, resource_key_spec};
use crate::utils::format::{truncate_spec, truncate_string};
use crate::utils::lang::{
    check_name_zh, check_status_text_spec, condition_value_zh, container_note_zh, pick, selinux_mode_zh,
    severity_label_spec, Lang,
};
use crate::utils::text::{dec, dec_int, owned, push_dec, push_dec_i64, push_str, str_eq};

verus! {

/// The rows of a table: each record's row, in order.
pub open spec fn concat_rows<A>(rs: Seq<A>, row: spec_fn(A) -> Seq<char>) -> Seq<char>
    decreases rs.len(),
{
    if rs.len() == 0 {
        seq![]
    } else {
        concat_rows(rs.drop_last(), row) + row(rs.last())
    }
}

pub proof fn lemma_concat_rows_step<A>(rs: Seq<A>, row: spec_fn(A) -> Seq<char>, i: int)
    requires
        0 <= i < rs.len(),
    ensures
        concat_rows(rs.take(i + 1), row) == concat_rows(rs.take(i), row) + row(rs[i]),
{
    assert(rs.take(i + 1).drop_last() =~= rs.take(i));
}

/// Appends a borrowed or owned text.
pub fn push_cow(out: &mut String, c: &Cow<str>)
    ensures
        final(out)@ == old(out)@ + c@,
{
    match c {
        Cow::Borrowed(b) => push_str(out, b),
        Cow::Owned(o) => push_str(out, o.as_str()),
    }
}

/// A node condition value as shown: localized in Chinese.
pub open spec fn condition_cell(lang: Lang, v: Seq<char>) -> Seq<char> {
    match lang {
        Lang::En => v,
        Lang::Zh => condition_value_zh(v),
    }
}

pub open spec fn condition_row(lang: Lang, r: NodeConditionsRow) -> Seq<char> {
    "| "@ + r.node_name@ + " | "@ + condition_cell(lang, r.ready@) + " | "@ + condition_cell(lang, r.memory_pressure@)
        + " | "@ + condition_cell(lang, r.disk_pressure@) + " | "@ + condition_cell(lang, r.pid_pressure@) + " |\n"@
}

/// Rows of the node conditions table: node, Ready, MemoryPressure,
/// DiskPressure, PIDPressure.
pub fn node_condition_rows(lang: Lang, rows: &Vec<NodeConditionsRow>) -> (r: String)
    ensures
        r@ == concat_rows(rows@, |c: NodeConditionsRow| condition_row(lang, c)),
{
    let ghost row = |c: NodeConditionsRow| condition_row(lang, c);
    let mut out = String::new();
    let mut i: usize = 0;
    while i < rows.len()
        invariant
            i <= rows.len(),
            row == (|c: NodeConditionsRow| condition_row(lang, c)),
            out@ == concat_rows(rows@.take(i as int), row),
        decreases rows.len() - i,
    {
        proof {
            lemma_concat_rows_step(rows@, row, i as int);
        }
        let c = &rows[i];
        push_str(&mut out, "| ");
        push_str(&mut out, c.node_name.as_str());
        push_str(&mut out, " | ");
        push_cow(&mut out, &lang.condition_value(c.ready.as_str()));
        push_str(&mut out, " | ");
        push_cow(&mut out, &lang.condition_value(c.memory_pressure.as_str()));
        push_str(&mut out, " | ");
        push_cow(&mut out, &lang.condition_value(c.disk_pressure.as_str()));
        push_str(&mut out, " | ");
        push_cow(&mut out, &lang.condition_value(c.pid_pressure.as_str()));
        push_str(&mut out, " |\n");
        i = i + 1;
    }
    proof {
        assert(rows@.take(rows.len() as int) =~= rows@);
    }
    out
}

/// The level shown for an event type: the severity label of errors,
/// warnings and normal events, the type itself otherwise.
pub open spec fn event_level(lang: Lang, t: Seq<char>) -> Seq<char> {
    if t == "Error"@ {
        severity_label_spec(lang, IssueSeverity::Critical)
    } else if t == "Warning"@ {
        severity_label_spec(lang, IssueSeverity::Warning)
    } else if t == "Normal"@ {
        severity_label_spec(lang, IssueSeverity::Info)
    } else {
        t
    }
}

pub open spec fn event_row_md(lang: Lang, e: EventRow) -> Seq<char> {
    "| "@ + e.namespace@ + " | "@ + e.object_ref@ + " | "@ + event_level(lang, e.event_type@) + " | "@ + e.reason@
        + " | "@ + truncate_spec(e.message@, 60) + " | "@ + e.last_seen@ + " |\n"@
}

fn event_line(lang: Lang, e: &EventRow) -> (out: String)
    ensures
        out@ == event_row_md(lang, *e),
{
    let mut out = owned("| ");
    let t = e.event_type.as_str();
    let level: &str = if str_eq(t, "Error") {
        lang.severity_label(&IssueSeverity::Critical)
    } else if str_eq(t, "Warning") {
        lang.severity_label(&IssueSeverity::Warning)
    } else if str_eq(t, "Normal") {
        lang.severity_label(&IssueSeverity::Info)
    } else {
        t
    };
    push_str(&mut out, e.namespace.as_str());
    push_str(&mut out, " | ");
    push_str(&mut out, e.object_ref.as_str());
    push_str(&mut out, " | ");
    push_str(&mut out, level);
    push_str(&mut out, " | ");
    push_str(&mut out, e.reason.as_str());
    push_str(&mut out, " | ");
    push_str(&mut out, truncate_string(e.message.as_str(), 60).as_str());
    push_str(&mut out, " | ");
    push_str(&mut out, e.last_seen.as_str());
    push_str(&mut out, " |\n");
    out
}

/// Rows of the recent events table: namespace, object, level, reason,
/// message (at most 60 bytes), last seen.
pub fn event_rows(lang: Lang, events: &Vec<EventRow>) -> (r: String)
    ensures
        r@ == concat_rows(events@, |e: EventRow| event_row_md(lang, e)),
{
    let ghost row = |e: EventRow| event_row_md(lang, e);
    let mut out = String::new();
    let mut i: usize = 0;
    while i < events.len()
        invariant
            i <= events.len(),
            row == (|e: EventRow| event_row_md(lang, e)),
            out@ == concat_rows(events@.take(i as int), row),
        decreases events.len() - i,
    {
        proof {
            lemma_concat_rows_step(events@, row, i as int);
        }
        push_str(&mut out, event_line(lang, &events[i]).as_str());
        i = i + 1;
    }
    proof {
        assert(events@.take(events.len() as int) =~= events@);
    }
    out
}

pub open spec fn middleware_row_md(lang: Lang, m: DbMiddlewareRow) -> Seq<char> {
    "| `"@ + m.namespace@ + "` | `"@ + m.pod_name@ + "` | `"@ + truncate_spec(m.image@, 44) + "` | "@ + (if m.ready {
        pick(lang, "Yes"@, "是"@)
    } else {
        pick(lang, "No"@, "否"@)
    }) + " | "@ + dec(m.restart_count as nat) + " |\n"@
}

fn middleware_line(lang: Lang, m: &DbMiddlewareRow) -> (out: String)
    ensures
        out@ == middleware_row_md(lang, *m),
{
    let mut out = owned("| `");
    push_str(&mut out, m.namespace.as_str());
    push_str(&mut out, "` | `");
    push_str(&mut out, m.pod_name.as_str());
    push_str(&mut out, "` | `");
    push_str(&mut out, truncate_string(m.image.as_str(), 44).as_str());
    push_str(&mut out, "` | ");
    push_str(&mut out, if m.ready { lang.t("Yes", "是") } else { lang.t("No", "否") });
    push_str(&mut out, " | ");
    push_dec(&mut out, m.restart_count as u64);
    push_str(&mut out, " |\n");
    out
}

/// Rows of the database middleware table: namespace, pod, image (at most
/// 44 bytes), ready, restarts.
pub fn middleware_rows(lang: Lang, rows: &Vec<DbMiddlewareRow>) -> (r: String)
    ensures
        r@ == concat_rows(rows@, |m: DbMiddlewareRow| middleware_row_md(lang, m)),
{
    let ghost row = |m: DbMiddlewareRow| middleware_row_md(lang, m);
    let mut out = String::new();
    let mut i: usize = 0;
    while i < rows.len()
        invariant
            i <= rows.len(),
            row == (|m: DbMiddlewareRow| middleware_row_md(lang, m)),
            out@ == concat_rows(rows@.take(i as int), row),
        decreases rows.len() - i,
    {
        proof {
            lemma_concat_rows_step(rows@, row, i as int);
        }
        push_str(&mut out, middleware_line(lang, &rows[i]).as_str());
        i = i + 1;
    }
    proof {
        assert(rows@.take(rows.len() as int) =~= rows@);
    }
    out
}

pub open spec fn yes_no(lang: Lang, b: bool) -> Seq<char> {
    if b {
        pick(lang, "Yes"@, "是"@)
    } else {
        pick(lang, "No"@, "否"@)
    }
}

pub open spec fn namespace_row_md(lang: Lang, r: NamespaceSummaryRow) -> Seq<char> {
    "| "@ + r.name@ + " | "@ + dec(r.pod_count as nat) + " | "@ + dec(r.deployment_count as nat) + " | "@ + yes_no(
        lang,
        r.has_network_policy,
    ) + " | "@ + yes_no(lang, r.has_resource_quota) + " | "@ + yes_no(lang, r.has_limit_range) + " |\n"@
}

fn yes_no_text(lang: Lang, b: bool) -> (r: &'static str)
    ensures
        r@ == yes_no(lang, b),
{
    if b {
        lang.t("Yes", "是")
    } else {
        lang.t("No", "否")
    }
}

fn namespace_row(lang: Lang, n: &NamespaceSummaryRow) -> (r: String)
    ensures
        r@ == namespace_row_md(lang, *n),
{
    let mut out = owned("| ");
    push_str(&mut out, n.name.as_str());
    push_str(&mut out, " | ");
    push_dec(&mut out, n.pod_count as u64);
    push_str(&mut out, " | ");
    push_dec(&mut out, n.deployment_count as u64);
    push_str(&mut out, " | ");
    push_str(&mut out, yes_no_text(lang, n.has_network_policy));
    push_str(&mut out, " | ");
    push_str(&mut out, yes_no_text(lang, n.has_resource_quota));
    push_str(&mut out, " | ");
    push_str(&mut out, yes_no_text(lang, n.has_limit_range));
    push_str(&mut out, " |\n");
    out
}

/// Rows of the namespace summary table: name, pods, deployments, and
/// whether it has a network policy, a resource quota, a limit range.
pub fn namespace_rows(lang: Lang, rows: &Vec<NamespaceSummaryRow>) -> (r: String)
    ensures
        r@ == concat_rows(rows@, |n: NamespaceSummaryRow| namespace_row_md(lang, n)),
{
    let ghost row = |n: NamespaceSummaryRow| namespace_row_md(lang, n);
    let mut out = String::new();
    let mut i: usize = 0;
    while i < rows.len()
        invariant
            i <= rows.len(),
            row == (|n: NamespaceSummaryRow| namespace_row_md(lang, n)),
            out@ == concat_rows(rows@.take(i as int), row),
        decreases rows.len() - i,
    {
        proof {
            lemma_concat_rows_step(rows@, row, i as int);
        }
        push_str(&mut out, namespace_row(lang, &rows[i]).as_str());
        i = i + 1;
    }
    proof {
        assert(rows@.take(rows.len() as int) =~= rows@);
    }
    out
}


/// A localized cell: the text itself in English, its Chinese form
/// otherwise.
pub open spec fn localized(lang: Lang, v: Seq<char>, zh: Seq<char>) -> Seq<char> {
    match lang {
        Lang::En => v,
        Lang::Zh => zh,
    }
}

pub open spec fn container_usage_row_md(lang: Lang, r: ContainerUsageRow) -> Seq<char> {
    "| "@ + r.namespace@ + " | "@ + r.pod_name@ + " | "@ + r.container_name@ + " | "@ + dec(r.cpu_used_m as nat)
        + " | "@ + dec(r.cpu_request_m as nat) + " | "@ + dec(r.cpu_limit_m as nat) + " | "@ + dec(
        r.mem_used_mib as nat,
    ) + " | "@ + dec(r.mem_request_mib as nat) + " | "@ + dec(r.mem_limit_mib as nat) + " | "@ + localized(
        lang,
        r.notable_reason@,
        container_note_zh(r.notable_reason@),
    ) + " |\n"@
}

fn container_usage_row(lang: Lang, r: &ContainerUsageRow) -> (out: String)
    ensures
        out@ == container_usage_row_md(lang, *r),
{
    let mut out = owned("| ");
    push_str(&mut out, r.namespace.as_str());
    push_str(&mut out, " | ");
    push_str(&mut out, r.pod_name.as_str());
    push_str(&mut out, " | ");
    push_str(&mut out, r.container_name.as_str());
    push_str(&mut out, " | ");
    push_dec(&mut out, r.cpu_used_m);
    push_str(&mut out, " | ");
    push_dec(&mut out, r.cpu_request_m);
    push_str(&mut out, " | ");
    push_dec(&mut out, r.cpu_limit_m);
    push_str(&mut out, " | ");
    push_dec(&mut out, r.mem_used_mib);
    push_str(&mut out, " | ");
    push_dec(&mut out, r.mem_request_mib);
    push_str(&mut out, " | ");
    push_dec(&mut out, r.mem_limit_mib);
    push_str(&mut out, " | ");
    push_cow(&mut out, &lang.container_note(r.notable_reason.as_str()));
    push_str(&mut out, " |\n");
    out
}

/// Rows of the container usage table: namespace, pod, container, CPU used,
/// requested and limit (millicores), memory used, requested and limit
/// (MiB), and the note.
pub fn container_usage_rows(lang: Lang, rows: &Vec<ContainerUsageRow>) -> (r: String)
    ensures
        r@ == concat_rows(rows@, |c: ContainerUsageRow| container_usage_row_md(lang, c)),
{
    let ghost row = |c: ContainerUsageRow| container_usage_row_md(lang, c);
    let mut out = String::new();
    let mut i: usize = 0;
    while i < rows.len()
        invariant
            i <= rows.len(),
            row == (|c: ContainerUsageRow| container_usage_row_md(lang, c)),
            out@ == concat_rows(rows@.take(i as int), row),
        decreases rows.len() - i,
    {
        proof {
            lemma_concat_rows_step(rows@, row, i as int);
        }
        push_str(&mut out, container_usage_row(lang, &rows[i]).as_str());
        i = i + 1;
    }
    proof {
        assert(rows@.take(rows.len() as int) =~= rows@);
    }
    out
}

/// Rows of the workload table: deployments, stateful sets and daemon sets,
/// each with its total and ready count.
pub fn workload_rows(w: &WorkloadSummary) -> (r: String)
    ensures
        r@ == "| Deployment | "@ + dec(w.deployments_total as nat) + " | "@ + dec(w.deployments_ready as nat)
            + " |\n| StatefulSet | "@ + dec(w.statefulsets_total as nat) + " | "@ + dec(w.statefulsets_ready as nat)
            + " |\n| DaemonSet | "@ + dec(w.daemonsets_total as nat) + " | "@ + dec(w.daemonsets_ready as nat)
            + " |\n\n"@,
{
    let mut out = owned("| Deployment | ");
    push_dec(&mut out, w.deployments_total as u64);
    push_str(&mut out, " | ");
    push_dec(&mut out, w.deployments_ready as u64);
    push_str(&mut out, " |\n| StatefulSet | ");
    push_dec(&mut out, w.statefulsets_total as u64);
    push_str(&mut out, " | ");
    push_dec(&mut out, w.statefulsets_ready as u64);
    push_str(&mut out, " |\n| DaemonSet | ");
    push_dec(&mut out, w.daemonsets_total as u64);
    push_str(&mut out, " | ");
    push_dec(&mut out, w.daemonsets_ready as u64);
    push_str(&mut out, " |\n\n");
    out
}

/// A check of the check results table: the resource it concerns, its
/// name, status, score as shown, and details.
#[derive(Debug, Clone)]
pub struct CheckLine {
    pub resource: String,
    pub name: String,
    pub status: CheckStatus,
    pub score: String,
    pub details: Option<String>,
}

/// Whether the level filter shows a status.
pub open spec fn shows(filter: CheckLevelFilter, s: CheckStatus) -> bool {
    match filter {
        CheckLevelFilter::All => true,
        CheckLevelFilter::Only { statuses, .. } => statuses@.contains(s),
    }
}

pub open spec fn check_line_md(lang: Lang, filter: CheckLevelFilter, c: CheckLine) -> Seq<char> {
    if shows(filter, c.status) {
        "| "@ + c.resource@ + " | "@ + localized(lang, c.name@, check_name_zh(c.name@)) + " | "@
            + check_status_text_spec(lang, c.status) + " | "@ + c.score@ + " | "@ + truncate_spec(
            or_default(c.details, "-"@),
            60,
        ) + " |\n"@
    } else {
        seq![]
    }
}

fn shown(filter: &CheckLevelFilter, s: CheckStatus) -> (r: bool)
    ensures
        r == shows(*filter, s),
{
    match filter {
        CheckLevelFilter::All => true,
        CheckLevelFilter::Only { statuses: v, info } => {
            assert(*filter == (CheckLevelFilter::Only { statuses: *v, info: *info }));
            let mut i: usize = 0;
            while i < v.len()
                invariant
                    i <= v.len(),
                    *filter == (CheckLevelFilter::Only { statuses: *v, info: *info }),
                    forall|j: int| 0 <= j < i ==> v@[j] != s,
                decreases v.len() - i,
            {
                if v[i] == s {
                    assert(v@[i as int] == s);
                    assert(v@.contains(s));
                    return true;
                }
                i = i + 1;
            }
            false
        },
    }
}

fn check_line(lang: Lang, c: &CheckLine) -> (r: String)
    ensures
        r@ == "| "@ + c.resource@ + " | "@ + localized(lang, c.name@, check_name_zh(c.name@)) + " | "@
            + check_status_text_spec(lang, c.status) + " | "@ + c.score@ + " | "@ + truncate_spec(
            or_default(c.details, "-"@),
            60,
        ) + " |\n"@,
{
    let mut out = owned("| ");
    push_str(&mut out, c.resource.as_str());
    push_str(&mut out, " | ");
    push_cow(&mut out, &lang.check_name(c.name.as_str()));
    push_str(&mut out, " | ");
    push_str(&mut out, lang.check_status_text(&c.status));
    push_str(&mut out, " | ");
    push_str(&mut out, c.score.as_str());
    push_str(&mut out, " | ");
    push_str(&mut out, truncate_string(str_or(&c.details, "-"), 60).as_str());
    push_str(&mut out, " |\n");
    out
}

/// Rows of the check results table: the checks whose status the filter
/// shows, with resource, localized name, status, score and details (at
/// most 60 bytes, `-` without any).
pub fn check_result_rows(lang: Lang, checks: &Vec<CheckLine>, filter: &CheckLevelFilter) -> (r: String)
    ensures
        r@ == concat_rows(checks@, |c: CheckLine| check_line_md(lang, *filter, c)),
{
    let ghost row = |c: CheckLine| check_line_md(lang, *filter, c);
    let mut out = String::new();
    let mut i: usize = 0;
    while i < checks.len()
        invariant
            i <= checks.len(),
            row == (|c: CheckLine| check_line_md(lang, *filter, c)),
            out@ == concat_rows(checks@.take(i as int), row),
        decreases checks.len() - i,
    {
        proof {
            lemma_concat_rows_step(checks@, row, i as int);
        }
        if shown(filter, checks[i].status) {
            push_str(&mut out, check_line(lang, &checks[i]).as_str());
        } else {
            proof {
                assert(out@ + seq![] =~= out@);
            }
        }
        i = i + 1;
    }
    proof {
        assert(checks@.take(checks.len() as int) =~= checks@);
    }
    out
}


/// Level and issue code of a certificate by its days to expiry: expired
/// is critical (`B03`), within 30 days a warning (`B02`), otherwise info
/// (`B02`).
pub open spec fn cert_level(lang: Lang, days: int) -> (Seq<char>, Seq<char>) {
    if days < 0 {
        (severity_label_spec(lang, IssueSeverity::Critical), "B03"@)
    } else if days <= 30 {
        (severity_label_spec(lang, IssueSeverity::Warning), "B02"@)
    } else {
        (severity_label_spec(lang, IssueSeverity::Info), "B02"@)
    }
}

fn cert_level_exec(lang: Lang, days: i64) -> (r: (&'static str, &'static str))
    ensures
        (r.0@, r.1@) == cert_level(lang, days as int),
{
    if days < 0 {
        (lang.severity_label(&IssueSeverity::Critical), "B03")
    } else if days <= 30 {
        (lang.severity_label(&IssueSeverity::Warning), "B02")
    } else {
        (lang.severity_label(&IssueSeverity::Info), "B02")
    }
}

pub open spec fn tls_row_md(lang: Lang, r: CertificateExpiryRow) -> Seq<char> {
    let days = r.days_until_expiry as int;
    "| "@ + r.secret_namespace@ + "/"@ + r.secret_name@ + " | "@ + yes_no(lang, days < 0) + " | "@ + r.expiry_utc@
        + " | "@ + dec_int(days) + " | "@ + cert_level(lang, days).0 + " | "@ + cert_level(lang, days).1 + " |\n"@
}

fn tls_line(lang: Lang, r: &CertificateExpiryRow) -> (out: String)
    ensures
        out@ == tls_row_md(lang, *r),
{
    let (level, code) = cert_level_exec(lang, r.days_until_expiry);
    let mut out = owned("| ");
    push_str(&mut out, r.secret_namespace.as_str());
    push_str(&mut out, "/");
    push_str(&mut out, r.secret_name.as_str());
    push_str(&mut out, " | ");
    push_str(&mut out, yes_no_text(lang, r.days_until_expiry < 0));
    push_str(&mut out, " | ");
    push_str(&mut out, r.expiry_utc.as_str());
    push_str(&mut out, " | ");
    push_dec_i64(&mut out, r.days_until_expiry);
    push_str(&mut out, " | ");
    push_str(&mut out, level);
    push_str(&mut out, " | ");
    push_str(&mut out, code);
    push_str(&mut out, " |\n");
    out
}

/// Rows of the TLS certificate table: secret, expired, expiry, days to
/// expiry, level and issue code.
pub fn tls_rows(lang: Lang, rows: &Vec<CertificateExpiryRow>) -> (r: String)
    ensures
        r@ == concat_rows(rows@, |c: CertificateExpiryRow| tls_row_md(lang, c)),
{
    let ghost row = |c: CertificateExpiryRow| tls_row_md(lang, c);
    let mut out = String::new();
    let mut i: usize = 0;
    while i < rows.len()
        invariant
            i <= rows.len(),
            row == (|c: CertificateExpiryRow| tls_row_md(lang, c)),
            out@ == concat_rows(rows@.take(i as int), row),
        decreases rows.len() - i,
    {
        proof {
            lemma_concat_rows_step(rows@, row, i as int);
        }
        push_str(&mut out, tls_line(lang, &rows[i]).as_str());
        i = i + 1;
    }
    proof {
        assert(rows@.take(rows.len() as int) =~= rows@);
    }
    out
}

/// What the node tables show of a node: its name, services, security,
/// kernel parameters, certificates and container state counts.
#[derive(Debug, Clone)]
pub struct NodeTableRow {
    pub node_name: String,
    pub services: NodeServices,
    pub security: NodeSecurity,
    pub kernel: NodeKernel,
    pub certificates: Option<Vec<NodeCertificate>>,
    pub running: u32,
    pub waiting: u32,
    pub exited: u32,
}

/// Rows of a node table: each node's rows, in order.
pub fn node_table_rows(lang: Lang, nodes: &Vec<NodeTableRow>, table: NodeTable) -> (r: String)
    ensures
        r@ == concat_rows(nodes@, |n: NodeTableRow| node_rows_md(lang, table, n)),
{
    let ghost row = |n: NodeTableRow| node_rows_md(lang, table, n);
    let mut out = String::new();
    let mut i: usize = 0;
    while i < nodes.len()
        invariant
            i <= nodes.len(),
            row == (|n: NodeTableRow| node_rows_md(lang, table, n)),
            out@ == concat_rows(nodes@.take(i as int), row),
        decreases nodes.len() - i,
    {
        proof {
            lemma_concat_rows_step(nodes@, row, i as int);
        }
        let part = node_table_row(lang, &nodes[i], table);
        push_str(&mut out, part.as_str());
        i = i + 1;
    }
    proof {
        assert(nodes@.take(nodes.len() as int) =~= nodes@);
    }
    out
}

/// The rows of one node in a node table.
pub fn node_table_row(lang: Lang, n: &NodeTableRow, table: NodeTable) -> (r: String)
    ensures
        r@ == node_rows_md(lang, table, *n),
{
    match table {
        NodeTable::Services => service_line(lang, n),
        NodeTable::Security => security_line(lang, n),
        NodeTable::Kernel => kernel_line(n),
        NodeTable::ContainerStates => container_state_line(n),
        NodeTable::Certificates => node_cert_lines(lang, n),
    }
}

/// The per-node tables of the node inspection section.
#[derive(Debug, Clone, Copy, PartialEq, Eq, Structural)]
pub enum NodeTable {
    Services,
    Security,
    Kernel,
    ContainerStates,
    Certificates,
}

pub open spec fn node_rows_md(lang: Lang, table: NodeTable, n: NodeTableRow) -> Seq<char> {
    match table {
        NodeTable::Services => service_row_md(lang, n),
        NodeTable::Security => security_row_md(lang, n),
        NodeTable::Kernel => kernel_row_md(n),
        NodeTable::ContainerStates => "| "@ + n.node_name@ + " | "@ + dec(n.running as nat) + " | "@ + dec(
            n.waiting as nat,
        ) + " | "@ + dec(n.exited as nat) + " |\n"@,
        NodeTable::Certificates => node_cert_rows_md(lang, n),
    }
}

/// A service cell: enabled, disabled, or none when unknown.
pub open spec fn service_cell(lang: Lang, v: Option<bool>) -> Seq<char> {
    match v {
        Some(true) => pick(lang, "enabled"@, "已启用"@),
        Some(false) => pick(lang, "disabled"@, "已禁用"@),
        None => pick(lang, "None"@, "无"@),
    }
}

/// A yes/no cell, `-` when unknown.
pub open spec fn yes_no_cell(lang: Lang, v: Option<bool>) -> Seq<char> {
    match v {
        Some(b) => yes_no(lang, b),
        None => "-"@,
    }
}

pub open spec fn service_row_md(lang: Lang, n: NodeTableRow) -> Seq<char> {
    let s = n.services;
    "| "@ + n.node_name@ + " | "@ + service_cell(lang, s.kubelet_running) + " | "@ + service_cell(
        lang,
        s.container_runtime_running,
    ) + " | "@ + service_cell(lang, s.ntp_synced) + " | "@ + service_cell(lang, s.journald_active) + " | "@
        + service_cell(lang, s.crontab_present) + " |\n"@
}

fn service_text(lang: Lang, v: Option<bool>) -> (r: &'static str)
    ensures
        r@ == service_cell(lang, v),
{
    match v {
        Some(true) => lang.t("enabled", "已启用"),
        Some(false) => lang.t("disabled", "已禁用"),
        None => lang.t("None", "无"),
    }
}

fn yes_no_opt(lang: Lang, v: Option<bool>) -> (r: &'static str)
    ensures
        r@ == yes_no_cell(lang, v),
{
    match v {
        Some(b) => yes_no_text(lang, b),
        None => "-",
    }
}

fn service_line(lang: Lang, n: &NodeTableRow) -> (out: String)
    ensures
        out@ == service_row_md(lang, *n),
{
    let s = &n.services;
    let mut out = owned("| ");
    push_str(&mut out, n.node_name.as_str());
    push_str(&mut out, " | ");
    push_str(&mut out, service_text(lang, s.kubelet_running));
    push_str(&mut out, " | ");
    push_str(&mut out, service_text(lang, s.container_runtime_running));
    push_str(&mut out, " | ");
    push_str(&mut out, service_text(lang, s.ntp_synced));
    push_str(&mut out, " | ");
    push_str(&mut out, service_text(lang, s.journald_active));
    push_str(&mut out, " | ");
    push_str(&mut out, service_text(lang, s.crontab_present));
    push_str(&mut out, " |\n");
    out
}

/// The SELinux cell: the mode, localized in Chinese, `-` when unknown.
pub open spec fn selinux_cell(lang: Lang, v: Option<String>) -> Seq<char> {
    match v {
        Some(m) => localized(lang, m@, selinux_mode_zh(m@)),
        None => "-"@,
    }
}

/// The firewalld cell: active, inactive, `-` when unknown.
pub open spec fn firewalld_cell(lang: Lang, v: Option<bool>) -> Seq<char> {
    match v {
        Some(true) => pick(lang, "Active"@, "已激活"@),
        Some(false) => pick(lang, "Inactive"@, "未激活"@),
        None => "-"@,
    }
}

pub open spec fn security_row_md(lang: Lang, n: NodeTableRow) -> Seq<char> {
    let s = n.security;
    "| "@ + n.node_name@ + " | "@ + selinux_cell(lang, s.selinux) + " | "@ + firewalld_cell(lang, s.firewalld_active)
        + " | "@ + yes_no_cell(lang, s.ipvs_loaded) + " | "@ + yes_no_cell(lang, s.br_netfilter_loaded) + " | "@
        + yes_no_cell(lang, s.overlay_loaded) + " | "@ + yes_no_cell(lang, s.nf_conntrack_loaded) + " |\n"@
}

fn security_line(lang: Lang, n: &NodeTableRow) -> (out: String)
    ensures
        out@ == security_row_md(lang, *n),
{
    let s = &n.security;
    let mut out = owned("| ");
    push_str(&mut out, n.node_name.as_str());
    push_str(&mut out, " | ");
    match &s.selinux {
        Some(m) => push_cow(&mut out, &lang.selinux_mode(m.as_str())),
        None => push_str(&mut out, "-"),
    }
    push_str(&mut out, " | ");
    push_str(
        &mut out,
        match s.firewalld_active {
            Some(true) => lang.t("Active", "已激活"),
            Some(false) => lang.t("Inactive", "未激活"),
            None => "-",
        },
    );
    push_str(&mut out, " | ");
    push_str(&mut out, yes_no_opt(lang, s.ipvs_loaded));
    push_str(&mut out, " | ");
    push_str(&mut out, yes_no_opt(lang, s.br_netfilter_loaded));
    push_str(&mut out, " | ");
    push_str(&mut out, yes_no_opt(lang, s.overlay_loaded));
    push_str(&mut out, " | ");
    push_str(&mut out, yes_no_opt(lang, s.nf_conntrack_loaded));
    push_str(&mut out, " |\n");
    out
}

pub open spec fn kernel_row_md(n: NodeTableRow) -> Seq<char> {
    let k = n.kernel;
    "| "@ + n.node_name@ + " | "@ + or_default(k.net_ipv4_ip_forward, "-"@) + " | "@ + or_default(
        k.vm_swappiness,
        "-"@,
    ) + " | "@ + or_default(k.net_core_somaxconn, "-"@) + " |\n"@
}

fn kernel_line(n: &NodeTableRow) -> (out: String)
    ensures
        out@ == kernel_row_md(*n),
{
    let k = &n.kernel;
    let mut out = owned("| ");
    push_str(&mut out, n.node_name.as_str());
    push_str(&mut out, " | ");
    push_str(&mut out, str_or(&k.net_ipv4_ip_forward, "-"));
    push_str(&mut out, " | ");
    push_str(&mut out, str_or(&k.vm_swappiness, "-"));
    push_str(&mut out, " | ");
    push_str(&mut out, str_or(&k.net_core_somaxconn, "-"));
    push_str(&mut out, " |\n");
    out
}

fn container_state_line(n: &NodeTableRow) -> (out: String)
    ensures
        out@ == node_rows_md(Lang::En, NodeTable::ContainerStates, *n),
{
    let mut out = owned("| ");
    push_str(&mut out, n.node_name.as_str());
    push_str(&mut out, " | ");
    push_dec(&mut out, n.running as u64);
    push_str(&mut out, " | ");
    push_dec(&mut out, n.waiting as u64);
    push_str(&mut out, " | ");
    push_dec(&mut out, n.exited as u64);
    push_str(&mut out, " |\n");
    out
}

pub open spec fn node_cert_row_md(lang: Lang, node: Seq<char>, c: NodeCertificate) -> Seq<char> {
    let days = c.days_remaining as int;
    "| "@ + node + " | "@ + host_path_spec(c.path@) + " | "@ + yes_no(lang, c.status@ == "Expired"@) + " | "@
        + c.expiration_date@ + " | "@ + dec_int(days) + " | "@ + cert_level(lang, days).0 + " | "@ + cert_level(
        lang,
        days,
    ).1 + " |\n"@
}

pub open spec fn node_cert_rows_md(lang: Lang, n: NodeTableRow) -> Seq<char> {
    let certs = match n.certificates {
        Some(v) => v@,
        None => seq![],
    };
    if certs.len() == 0 {
        "| "@ + n.node_name@ + " | - | - | - | - | - | - |\n"@
    } else {
        concat_rows(certs, |c: NodeCertificate| node_cert_row_md(lang, n.node_name@, c))
    }
}

fn node_cert_line(lang: Lang, node: &str, c: &NodeCertificate) -> (out: String)
    ensures
        out@ == node_cert_row_md(lang, node@, *c),
{
    let (level, code) = cert_level_exec(lang, c.days_remaining);
    let mut out = owned("| ");
    push_str(&mut out, node);
    push_str(&mut out, " | ");
    push_str(&mut out, host_path_display(c.path.as_str()).as_str());
    push_str(&mut out, " | ");
    push_str(&mut out, yes_no_text(lang, str_eq(c.status.as_str(), "Expired")));
    push_str(&mut out, " | ");
    push_str(&mut out, c.expiration_date.as_str());
    push_str(&mut out, " | ");
    push_dec_i64(&mut out, c.days_remaining);
    push_str(&mut out, " | ");
    push_str(&mut out, level);
    push_str(&mut out, " | ");
    push_str(&mut out, code);
    push_str(&mut out, " |\n");
    out
}

fn node_cert_lines(lang: Lang, n: &NodeTableRow) -> (out: String)
    ensures
        out@ == node_cert_rows_md(lang, *n),
{
    let empty: Vec<NodeCertificate> = Vec::new();
    let certs = match &n.certificates {
        Some(v) => v,
        None => &empty,
    };
    if certs.len() == 0 {
        let mut out = owned("| ");
        push_str(&mut out, n.node_name.as_str());
        push_str(&mut out, " | - | - | - | - | - | - |\n");
        return out;
    }
    let ghost row = |c: NodeCertificate| node_cert_row_md(lang, n.node_name@, c);
    let mut out = String::new();
    let mut i: usize = 0;
    while i < certs.len()
        invariant
            i <= certs.len(),
            row == (|c: NodeCertificate| node_cert_row_md(lang, n.node_name@, c)),
            out@ == concat_rows(certs@.take(i as int), row),
        decreases certs.len() - i,
    {
        proof {
            lemma_concat_rows_step(certs@, row, i as int);
        }
        push_str(&mut out, node_cert_line(lang, n.node_name.as_str(), &certs[i]).as_str());
        i = i + 1;
    }
    proof {
        assert(certs@.take(certs.len() as int) =~= certs@);
    }
    out
}


/// The issue code cell of a group: its code in backticks, `-` without one.
pub open spec fn code_cell_spec(rule_id: Option<Seq<char>>) -> Seq<char> {
    match rule_id {
        Some(c) => "`"@ + strip_prefix_spec(c) + "`"@,
        None => "-"@,
    }
}

/// The rows of one group of issues: one per affected resource, or one
/// under the section's label when the issues name no resource.
pub open spec fn group_rows_md(label: Seq<char>, level: Seq<char>, g: GroupSpec) -> Seq<char> {
    let code = code_cell_spec(g.0.0);
    if g.3.len() == 0 {
        "| "@ + label + " | "@ + level + " | "@ + code + " | "@ + g.1 + " |\n"@
    } else {
        concat_rows(g.3, |r: Seq<char>| "| `"@ + r + "` | "@ + level + " | "@ + code + " | "@ + g.1 + " |\n"@)
    }
}

/// The rows of the groups of one severity.
pub open spec fn severity_rows_md(lang: Lang, issues: Seq<Issue>, label: Seq<char>, sev: IssueSeverity) -> Seq<char> {
    concat_rows(groups_of(lang, issues, sev), |g: GroupSpec| group_rows_md(label, severity_label_spec(lang, sev), g))
}

/// The rows of an issue table: critical groups, then warnings, then (when
/// shown) informational ones.
pub open spec fn issue_rows_md(lang: Lang, issues: Seq<Issue>, label: Seq<char>, show_info: bool) -> Seq<char> {
    severity_rows_md(lang, issues, label, IssueSeverity::Critical) + severity_rows_md(
        lang,
        issues,
        label,
        IssueSeverity::Warning,
    ) + if show_info {
        severity_rows_md(lang, issues, label, IssueSeverity::Info)
    } else {
        seq![]
    }
}

fn group_lines(label: &str, level: &str, g: &IssueGroup) -> (out: String)
    ensures
        out@ == group_rows_md(label@, level@, group_view(*g)),
{
    let code = code_cell(
        match &g.rule_id {
            Some(c) => Some(c.as_str()),
            None => None,
        },
    );
    proof {
        assert(code@ == code_cell_spec(group_view(*g).0.0));
    }
    if g.resources.len() == 0 {
        let mut out = owned("| ");
        push_str(&mut out, label);
        push_str(&mut out, " | ");
        push_str(&mut out, level);
        push_str(&mut out, " | ");
        push_str(&mut out, code.as_str());
        push_str(&mut out, " | ");
        push_str(&mut out, g.title.as_str());
        push_str(&mut out, " |\n");
        return out;
    }
    let ghost rs = group_view(*g).3;
    let ghost row = |r: Seq<char>| "| `"@ + r + "` | "@ + level@ + " | "@ + code@ + " | "@ + g.title@ + " |\n"@;
    let mut out = String::new();
    let mut i: usize = 0;
    while i < g.resources.len()
        invariant
            i <= g.resources.len(),
            rs == g.resources@.map_values(|s: String| s@),
            row == (|r: Seq<char>| "| `"@ + r + "` | "@ + level@ + " | "@ + code@ + " | "@ + g.title@ + " |\n"@),
            out@ == concat_rows(rs.take(i as int), row),
        decreases g.resources.len() - i,
    {
        proof {
            lemma_concat_rows_step(rs, row, i as int);
        }
        push_str(&mut out, "| `");
        push_str(&mut out, g.resources[i].as_str());
        push_str(&mut out, "` | ");
        push_str(&mut out, level);
        push_str(&mut out, " | ");
        push_str(&mut out, code.as_str());
        push_str(&mut out, " | ");
        push_str(&mut out, g.title.as_str());
        push_str(&mut out, " |\n");
        i = i + 1;
    }
    proof {
        assert(rs.take(rs.len() as int) =~= rs);
    }
    out
}

fn severity_lines(lang: Lang, issues: &Vec<Issue>, label: &str, sev: IssueSeverity) -> (out: String)
    ensures
        out@ == severity_rows_md(lang, issues@, label@, sev),
{
    let groups = group_issues(lang, issues, sev);
    let level = lang.severity_label(&sev);
    let ghost gs = group_views(groups@);
    let ghost row = |g: GroupSpec| group_rows_md(label@, severity_label_spec(lang, sev), g);
    let mut out = String::new();
    let mut i: usize = 0;
    while i < groups.len()
        invariant
            i <= groups.len(),
            gs == group_views(groups@),
            gs == groups_of(lang, issues@, sev),
            level@ == severity_label_spec(lang, sev),
            row == (|g: GroupSpec| group_rows_md(label@, severity_label_spec(lang, sev), g)),
            out@ == concat_rows(gs.take(i as int), row),
        decreases groups.len() - i,
    {
        proof {
            lemma_concat_rows_step(gs, row, i as int);
        }
        push_str(&mut out, group_lines(label, level, &groups[i]).as_str());
        i = i + 1;
    }
    proof {
        assert(gs.take(gs.len() as int) =~= gs);
    }
    out
}

/// Rows of an issue table: the issues grouped by kind, critical first,
/// then warnings, then (when `show_info`) informational ones; a group gets
/// a row per affected resource, or one row under `label` when it names no
/// resource. Columns: resource, level, issue code, short title.
pub fn issue_rows(lang: Lang, issues: &Vec<Issue>, label: &str, show_info: bool) -> (r: String)
    ensures
        r@ == issue_rows_md(lang, issues@, label@, show_info),
{
    let mut out = severity_lines(lang, issues, label, IssueSeverity::Critical);
    push_str(&mut out, severity_lines(lang, issues, label, IssueSeverity::Warning).as_str());
    if show_info {
        push_str(&mut out, severity_lines(lang, issues, label, IssueSeverity::Info).as_str());
    } else {
        proof {
            assert(out@ + seq![] =~= out@);
        }
    }
    out
}

/// The separator row of a Markdown table.
pub open spec fn separator(cols: nat) -> Seq<char>
    decreases cols,
{
    if cols == 0 {
        "|"@
    } else {
        separator((cols - 1) as nat) + "---|"@
    }
}

pub fn separator_exec(cols: usize) -> (r: String)
    ensures
        r@ == separator(cols as nat) + "\n"@,
{
    let mut out = owned("|");
    let mut i: usize = 0;
    while i < cols
        invariant
            i <= cols,
            out@ == separator(i as nat),
        decreases cols - i,
    {
        push_str(&mut out, "---|");
        i = i + 1;
    }
    push_str(&mut out, "\n");
    out
}

/// The issues of the section of a resource.
pub open spec fn resource_issues_spec(issues: Seq<Issue>, resource: Seq<char>) -> Seq<Issue> {
    issues.filter(|i: Issue| resource_key_spec(i.category@, opt_string_view(i.rule_id)) == resource)
}

fn copy_opt(o: &Option<String>) -> (r: Option<String>)
    ensures
        r == *o,
{
    match o {
        Some(s) => Some(s.clone()),
        None => None,
    }
}

fn copy_issue(i: &Issue) -> (r: Issue)
    ensures
        r == *i,
{
    Issue {
        severity: i.severity,
        category: i.category.clone(),
        description: i.description.clone(),
        resource: copy_opt(&i.resource),
        recommendation: i.recommendation.clone(),
        rule_id: copy_opt(&i.rule_id),
    }
}

/// The issues whose report resource is `resource`, in order.
pub fn resource_issues(issues: &Vec<Issue>, resource: &str) -> (r: Vec<Issue>)
    ensures
        r@ == resource_issues_spec(issues@, resource@),
{
    let ghost pred = |i: Issue| resource_key_spec(i.category@, opt_string_view(i.rule_id)) == resource@;
    let mut out: Vec<Issue> = Vec::new();
    let mut k: usize = 0;
    while k < issues.len()
        invariant
            k <= issues.len(),
            pred == (|i: Issue| resource_key_spec(i.category@, opt_string_view(i.rule_id)) == resource@),
            out@ == issues@.take(k as int).filter(pred),
        decreases issues.len() - k,
    {
        proof {
            assert(issues@.take(k as int + 1).drop_last() =~= issues@.take(k as int));
            reveal(Seq::filter);
        }
        let key = issue_to_resource_key(&issues[k]);
        if str_eq(key.as_str(), resource) {
            out.push(copy_issue(&issues[k]));
        }
        k = k + 1;
    }
    proof {
        assert(issues@.take(issues.len() as int) =~= issues@);
    }
    out
}

/// Whether a resource's section holds the TLS certificate table.
pub open spec fn has_cert_table(resource: Seq<char>, certs: Option<Seq<CertificateExpiryRow>>) -> bool {
    &&& resource == "Certificate"@
    &&& certs matches Some(c) && c.len() > 0
}

/// The section of one resource in the detailed results: an anchor and a
/// heading, the TLS certificate table for the certificate section, the
/// issue table of the resource's issues, and a rule; nothing when it
/// would hold neither table. `headings` are the TLS table's title and
/// header row and the issue table's header row.
pub open spec fn resource_section_md(
    lang: Lang,
    resource: Seq<char>,
    issues: Seq<Issue>,
    certs: Option<Seq<CertificateExpiryRow>>,
    show_info: bool,
    headings: (Seq<char>, Seq<char>, Seq<char>),
) -> Seq<char> {
    let own = resource_issues_spec(issues, resource);
    let with_certs = has_cert_table(resource, certs);
    if own.len() == 0 && !with_certs {
        seq![]
    } else {
        "<a id=\""@ + trim_dashes(slug_raw(resource)) + "\"></a>\n\n### "@ + resource + "\n\n"@ + (if with_certs {
            headings.0 + headings.1 + separator(6) + "\n"@ + concat_rows(
                certs->0,
                |c: CertificateExpiryRow| tls_row_md(lang, c),
            ) + "\n"@
        } else {
            seq![]
        }) + (if own.len() > 0 {
            headings.2 + separator(4) + "\n"@ + issue_rows_md(lang, own, resource, show_info) + "\n"@
        } else {
            seq![]
        }) + "---\n\n"@
    }
}

fn cert_part(lang: Lang, with_certs: bool, certs: Option<&Vec<CertificateExpiryRow>>, title: &str, header: &str) -> (r:
    String)
    requires
        with_certs ==> certs is Some,
    ensures
        r@ == (if with_certs {
            title@ + header@ + separator(6) + "\n"@ + concat_rows(
                certs->0@,
                |c: CertificateExpiryRow| tls_row_md(lang, c),
            ) + "\n"@
        } else {
            seq![]
        }),
{
    let mut out = String::new();
    if with_certs {
        if let Some(c) = certs {
            push_str(&mut out, title);
            push_str(&mut out, header);
            push_str(&mut out, separator_exec(6).as_str());
            push_str(&mut out, tls_rows(lang, c).as_str());
            push_str(&mut out, "\n");
        }
    }
    out
}

fn issue_part(lang: Lang, own: &Vec<Issue>, resource: &str, show_info: bool, header: &str) -> (r: String)
    ensures
        r@ == (if own.len() > 0 {
            header@ + separator(4) + "\n"@ + issue_rows_md(lang, own@, resource@, show_info) + "\n"@
        } else {
            seq![]
        }),
{
    let mut out = String::new();
    if own.len() > 0 {
        push_str(&mut out, header);
        push_str(&mut out, separator_exec(4).as_str());
        push_str(&mut out, issue_rows(lang, own, resource, show_info).as_str());
        push_str(&mut out, "\n");
    }
    out
}

/// The section of `resource` in the detailed results (see
/// [`resource_section_md`]).
pub fn resource_section(
    lang: Lang,
    resource: &str,
    issues: &Vec<Issue>,
    certs: Option<&Vec<CertificateExpiryRow>>,
    show_info: bool,
    tls_title: &str,
    tls_header: &str,
    issue_header: &str,
) -> (r: String)
    ensures
        r@ == resource_section_md(
            lang,
            resource@,
            issues@,
            match certs {
                Some(c) => Some(c@),
                None => None,
            },
            show_info,
            (tls_title@, tls_header@, issue_header@),
        ),
{
    let ghost cv = match certs {
        Some(c) => Some(c@),
        None => None::<Seq<CertificateExpiryRow>>,
    };
    let own = resource_issues(issues, resource);
    let with_certs = match certs {
        Some(c) => str_eq(resource, "Certificate") && c.len() > 0,
        None => false,
    };
    assert(with_certs == has_cert_table(resource@, cv));
    if own.len() == 0 && !with_certs {
        return String::new();
    }
    let mut out = owned("<a id=\"");
    push_str(&mut out, slugify(resource).as_str());
    push_str(&mut out, "\"></a>\n\n### ");
    push_str(&mut out, resource);
    push_str(&mut out, "\n\n");
    push_str(&mut out, cert_part(lang, with_certs, certs, tls_title, tls_header).as_str());
    push_str(&mut out, issue_part(lang, &own, resource, show_info, issue_header).as_str());
    push_str(&mut out, "---\n\n");
    out
}

} // verus!
