//! Observability inspection: the metrics pipeline, cluster DNS, the logging
//! stack and monitoring, each found by the names of ready pods.

use vstd::prelude::*;

use crate::inspections::common::{issue_views, make_issue, push_issue, CheckOutcome, IssueSpec};
use crate::inspections::types::{CheckStatus, Issue, IssueSeverity};
use crate::utils::lang::{fill, lang_fmt1, lang_fmt2, pick, Lang};
use crate::utils::text::{chars_of, contains, contains_str, dec, owned, str_eq, u64_to_string};

verus! {

/// What the probes read of a pod: its name, phase and, when it reports
/// container statuses, whether each container is ready.
#[derive(Debug, Clone)]
pub struct PodProbe {
    pub name: Option<String>,
    pub phase: Option<String>,
    pub containers_ready: Option<Vec<bool>>,
}

/// A pod is ready when it is running and all of its reported containers
/// are ready (a running pod without container statuses counts as ready).
pub open spec fn pod_ready(p: PodProbe) -> bool {
    &&& p.phase is Some
    &&& p.phase->0@ == "Running"@
    &&& match p.containers_ready {
        Some(v) => forall|i: int| 0 <= i < v.len() ==> #[trigger] v@[i],
        None => true,
    }
}

/// Whether the pod is running with all reported containers ready.
pub fn is_pod_ready(p: &PodProbe) -> (r: bool)
    ensures
        r == pod_ready(*p),
{
    let running = match &p.phase {
        Some(ph) => str_eq(ph.as_str(), "Running"),
        None => false,
    };
    if !running {
        return false;
    }
    match &p.containers_ready {
        Some(v) => {
            let mut i: usize = 0;
            while i < v.len()
                invariant
                    i <= v.len(),
                    p.containers_ready == Some(*v),
                    forall|j: int| 0 <= j < i ==> #[trigger] v@[j],
                decreases v.len() - i,
            {
                if !v[i] {
                    proof {
                        assert(!v@[i as int]);
                        let cr = p.containers_ready->0;
                        assert(cr == *v);
                        assert(!(forall|j: int| 0 <= j < cr.len() ==> #[trigger] cr@[j]));
                        assert(!pod_ready(*p));
                    }
                    return false;
                }
                i = i + 1;
            }
            true
        },
        None => true,
    }
}

/// The components that the probes look for, each known by fragments of
/// its pods' names.
#[derive(Debug, Clone, Copy, PartialEq, Eq, Structural)]
pub enum Component {
    MetricsServer,
    KubeStateMetrics,
    CoreDns,
    Prometheus,
    Logging,
    OpenObserve,
}

/// Whether a pod name names the component.
pub open spec fn names_component(name: Seq<char>, c: Component) -> bool {
    match c {
        Component::MetricsServer => contains(name, "metrics-server"@) || contains(name, "metricsserver"@),
        Component::KubeStateMetrics => contains(name, "kube-state-metrics"@) || contains(name, "kube_state_metrics"@),
        Component::CoreDns => contains(name, "coredns"@) || contains(name, "kube-dns"@),
        Component::Prometheus => contains(name, "prometheus"@) || contains(name, "thanos"@) || contains(
            name,
            "victoriametrics"@,
        ),
        Component::Logging => contains(name, "fluent"@) || contains(name, "logstash"@) || contains(name, "loki"@)
            || contains(name, "vector"@),
        Component::OpenObserve => contains(name, "openobserve"@) || contains(name, "open-observe"@),
    }
}

/// Whether a pod name names the component.
pub fn name_matches(name: &str, c: Component) -> (r: bool)
    ensures
        r == names_component(name@, c),
{
    let v = chars_of(name);
    match c {
        Component::MetricsServer => contains_str(&v, "metrics-server") || contains_str(&v, "metricsserver"),
        Component::KubeStateMetrics => contains_str(&v, "kube-state-metrics") || contains_str(
            &v,
            "kube_state_metrics",
        ),
        Component::CoreDns => contains_str(&v, "coredns") || contains_str(&v, "kube-dns"),
        Component::Prometheus => contains_str(&v, "prometheus") || contains_str(&v, "thanos") || contains_str(
            &v,
            "victoriametrics",
        ),
        Component::Logging => contains_str(&v, "fluent") || contains_str(&v, "logstash") || contains_str(&v, "loki")
            || contains_str(&v, "vector"),
        Component::OpenObserve => contains_str(&v, "openobserve") || contains_str(&v, "open-observe"),
    }
}

/// A named, ready pod of the component.
pub open spec fn ready_component(p: PodProbe, c: Component) -> bool {
    p.name is Some && names_component(p.name->0@, c) && pod_ready(p)
}

/// Whether some pod of the list is a ready pod of the component.
pub fn has_ready_component(pods: &Vec<PodProbe>, c: Component) -> (r: bool)
    ensures
        r == exists|i: int| 0 <= i < pods.len() && #[trigger] ready_component(pods@[i], c),
{
    let mut i: usize = 0;
    while i < pods.len()
        invariant
            i <= pods.len(),
            forall|j: int| 0 <= j < i ==> !#[trigger] ready_component(pods@[j], c),
        decreases pods.len() - i,
    {
        let p = &pods[i];
        let hit = match &p.name {
            Some(n) => name_matches(n.as_str(), c) && is_pod_ready(p),
            None => false,
        };
        if hit {
            proof {
                assert(ready_component(pods@[i as int], c));
            }
            return true;
        }
        i = i + 1;
    }
    false
}

/// Pods of the component, and how many of them are ready.
pub open spec fn component_counts(ps: Seq<PodProbe>, c: Component) -> (nat, nat)
    decreases ps.len(),
{
    if ps.len() == 0 {
        (0, 0)
    } else {
        let prev = component_counts(ps.drop_last(), c);
        let p = ps.last();
        if p.name is Some && names_component(p.name->0@, c) {
            (prev.0 + if pod_ready(p) { 1nat } else { 0nat }, prev.1 + 1)
        } else {
            prev
        }
    }
}

proof fn lemma_component_counts_bound(ps: Seq<PodProbe>, c: Component)
    ensures
        component_counts(ps, c).0 <= component_counts(ps, c).1 <= ps.len(),
    decreases ps.len(),
{
    if ps.len() > 0 {
        lemma_component_counts_bound(ps.drop_last(), c);
    }
}

/// Counts the ready pods and all pods of the component.
pub fn count_component(pods: &Vec<PodProbe>, c: Component) -> (r: (u32, u32))
    requires
        pods.len() <= u32::MAX,
    ensures
        r.0 == component_counts(pods@, c).0,
        r.1 == component_counts(pods@, c).1,
{
    let mut ready: u32 = 0;
    let mut total: u32 = 0;
    let mut i: usize = 0;
    while i < pods.len()
        invariant
            i <= pods.len(),
            pods.len() <= u32::MAX,
            ready == component_counts(pods@.take(i as int), c).0,
            total == component_counts(pods@.take(i as int), c).1,
        decreases pods.len() - i,
    {
        proof {
            assert(pods@.take(i as int + 1).drop_last() =~= pods@.take(i as int));
            lemma_component_counts_bound(pods@.take(i as int), c);
        }
        let p = &pods[i];
        let named = match &p.name {
            Some(n) => name_matches(n.as_str(), c),
            None => false,
        };
        if named {
            total = total + 1;
            if is_pod_ready(p) {
                ready = ready + 1;
            }
        }
        i = i + 1;
    }
    proof {
        assert(pods@.take(pods.len() as int) =~= pods@);
    }
    (ready, total)
}

/// The first named, ready pod of either component decides: `Some(false)`
/// when it belongs to the first, `Some(true)` when only to the second;
/// `None` when no pod does.
pub open spec fn first_ready_hit(ps: Seq<PodProbe>, a: Component, b: Component) -> Option<bool>
    decreases ps.len(),
{
    if ps.len() == 0 {
        None
    } else if ready_component(ps[0], a) {
        Some(false)
    } else if ready_component(ps[0], b) {
        Some(true)
    } else {
        first_ready_hit(ps.drop_first(), a, b)
    }
}

/// Walks the pods in order and stops at the first ready pod of either
/// component.
pub fn find_first_ready(pods: &Vec<PodProbe>, a: Component, b: Component) -> (r: Option<bool>)
    ensures
        r == first_ready_hit(pods@, a, b),
{
    let mut i: usize = 0;
    proof {
        assert(pods@.subrange(0, pods.len() as int) =~= pods@);
    }
    while i < pods.len()
        invariant
            i <= pods.len(),
            first_ready_hit(pods@, a, b) == first_ready_hit(pods@.subrange(i as int, pods.len() as int), a, b),
        decreases pods.len() - i,
    {
        let ghost rest = pods@.subrange(i as int, pods.len() as int);
        proof {
            assert(rest[0] == pods@[i as int]);
            assert(rest.drop_first() =~= pods@.subrange(i as int + 1, pods.len() as int));
        }
        let p = &pods[i];
        let (hit_a, hit_b) = match &p.name {
            Some(n) => {
                let ready = is_pod_ready(p);
                (name_matches(n.as_str(), a) && ready, name_matches(n.as_str(), b) && ready)
            },
            None => (false, false),
        };
        if hit_a {
            return Some(false);
        }
        if hit_b {
            return Some(true);
        }
        i = i + 1;
    }
    None
}

pub open spec fn obs_issue(lang: Lang, sev: IssueSeverity, en: Seq<char>, zh: Seq<char>, res: Seq<char>, rec_en: Seq<char>, rec_zh: Seq<char>, rule: Seq<char>) -> IssueSpec {
    (sev, "Observability"@, pick(lang, en, zh), Some(res), pick(lang, rec_en, rec_zh), Some(rule))
}

fn push_obs_issue(
    lang: Lang,
    sev: IssueSeverity,
    en: &str,
    zh: &str,
    res: &str,
    rec_en: &str,
    rec_zh: &str,
    rule: &str,
    out: &mut Vec<Issue>,
)
    ensures
        issue_views(final(out)@) == issue_views(old(out)@).push(obs_issue(lang, sev, en@, zh@, res@, rec_en@, rec_zh@, rule@)),
{
    let issue = make_issue(sev, "Observability", owned(lang.t(en, zh)), owned(res), lang.t(rec_en, rec_zh), rule);
    push_issue(out, issue);
}

pub open spec fn present_or_missing(lang: Lang, found: bool) -> Seq<char> {
    if found {
        pick(lang, "present"@, "存在"@)
    } else {
        pick(lang, "missing"@, "缺失"@)
    }
}

pub open spec fn metrics_pipeline_issues(lang: Lang, ms: bool, ksm: bool) -> Seq<IssueSpec> {
    (if ms {
        seq![]
    } else {
        seq![obs_issue(lang, IssueSeverity::Critical, "metrics-server is missing or not ready"@,
            "metrics-server 缺失或未就绪"@, "kube-system"@,
            "Deploy metrics-server to enable HPA and kubectl top commands."@,
            "部署 metrics-server 以启用 HPA 和 kubectl top 命令。"@, "A01"@)]
    }) + (if ksm {
        seq![]
    } else {
        seq![obs_issue(lang, IssueSeverity::Warning, "kube-state-metrics is missing or not ready"@,
            "kube-state-metrics 缺失或未就绪"@, "kube-system"@,
            "Deploy kube-state-metrics to expose Kubernetes object metrics."@,
            "部署 kube-state-metrics 以暴露 Kubernetes 对象指标。"@, "A02"@)]
    })
}

pub open spec fn metrics_pipeline_recs(lang: Lang, ms: bool, ksm: bool) -> Seq<Seq<char>> {
    (if ms {
        seq![]
    } else {
        seq![pick(lang, "Install metrics-server for core metrics APIs."@, "安装 metrics-server 以提供核心指标 API。"@)]
    }) + (if ksm {
        seq![]
    } else {
        seq![pick(lang, "Install kube-state-metrics for Prometheus scraping."@, "安装 kube-state-metrics 供 Prometheus 采集。"@)]
    })
}

pub open spec fn strings_view(v: Seq<String>) -> Seq<Seq<char>> {
    v.map_values(|s: String| s@)
}

/// Status of a score out of 100 with the pass and warning thresholds.
pub open spec fn graded(score: int, pass: int, warn: int) -> CheckStatus {
    if score >= pass {
        CheckStatus::Pass
    } else if score >= warn {
        CheckStatus::Warning
    } else {
        CheckStatus::Critical
    }
}

/// The metrics pipeline check: 30 points off without metrics-server (A01),
/// 20 without kube-state-metrics (A02); passes from 90, warns from 60.
pub fn metrics_pipeline_check(lang: Lang, metrics_server: bool, kube_state_metrics: bool, out: &mut Vec<Issue>) -> (r: CheckOutcome)
    ensures
        r.name@ == "Metrics Pipeline"@,
        r.description@ == pick(lang, "Checks metrics-server and kube-state-metrics availability"@, "检查 metrics-server 和 kube-state-metrics 的可用性"@),
        r.score == 100 - (if metrics_server { 0int } else { 30int }) - (if kube_state_metrics { 0int } else { 20int }),
        r.status == graded(r.score as int, 90, 60),
        r.details@ == fill(
            pick(lang, "metrics-server: {}, kube-state-metrics: {}"@, "metrics-server：{}，kube-state-metrics：{}"@),
            seq![present_or_missing(lang, metrics_server), present_or_missing(lang, kube_state_metrics)],
        ),
        strings_view(r.recommendations@) == metrics_pipeline_recs(lang, metrics_server, kube_state_metrics),
        issue_views(final(out)@) == issue_views(old(out)@) + metrics_pipeline_issues(lang, metrics_server, kube_state_metrics),
{
    let ghost start = issue_views(out@);
    let mut score: u32 = 100;
    let mut recommendations: Vec<String> = Vec::new();
    if !metrics_server {
        score = score - 30;
        push_obs_issue(lang, IssueSeverity::Critical, "metrics-server is missing or not ready",
            "metrics-server 缺失或未就绪", "kube-system",
            "Deploy metrics-server to enable HPA and kubectl top commands.",
            "部署 metrics-server 以启用 HPA 和 kubectl top 命令。", "A01", out);
        recommendations.push(owned(lang.t("Install metrics-server for core metrics APIs.", "安装 metrics-server 以提供核心指标 API。")));
    }
    if !kube_state_metrics {
        score = score - 20;
        push_obs_issue(lang, IssueSeverity::Warning, "kube-state-metrics is missing or not ready",
            "kube-state-metrics 缺失或未就绪", "kube-system",
            "Deploy kube-state-metrics to expose Kubernetes object metrics.",
            "部署 kube-state-metrics 以暴露 Kubernetes 对象指标。", "A02", out);
        recommendations.push(owned(lang.t("Install kube-state-metrics for Prometheus scraping.", "安装 kube-state-metrics 供 Prometheus 采集。")));
    }
    proof {
        assert(issue_views(out@) =~= start + metrics_pipeline_issues(lang, metrics_server, kube_state_metrics));
        assert(strings_view(recommendations@) =~= metrics_pipeline_recs(lang, metrics_server, kube_state_metrics));
    }
    let status = if score >= 90 {
        CheckStatus::Pass
    } else if score >= 60 {
        CheckStatus::Warning
    } else {
        CheckStatus::Critical
    };
    let pm = |found: bool| -> (s: &'static str)
        ensures
            s@ == present_or_missing(lang, found),
        {
            if found {
                lang.t("present", "存在")
            } else {
                lang.t("missing", "缺失")
            }
        };
    let details = lang_fmt2(lang, "metrics-server: {}, kube-state-metrics: {}", "metrics-server：{}，kube-state-metrics：{}",
        pm(metrics_server), pm(kube_state_metrics));
    CheckOutcome {
        name: owned("Metrics Pipeline"),
        description: owned(lang.t("Checks metrics-server and kube-state-metrics availability", "检查 metrics-server 和 kube-state-metrics 的可用性")),
        status,
        score,
        details,
        recommendations,
    }
}

pub open spec fn coredns_issues(lang: Lang, total: nat) -> Seq<IssueSpec> {
    if total == 0 {
        seq![obs_issue(lang, IssueSeverity::Critical, "CoreDNS (cluster DNS) not found in kube-system"@,
            "在 kube-system 中未找到 CoreDNS（集群 DNS）"@, "kube-system"@,
            "Ensure CoreDNS or kube-dns is deployed for cluster DNS."@,
            "确保为集群 DNS 部署了 CoreDNS 或 kube-dns。"@, "305"@)]
    } else {
        seq![]
    }
}

/// The cluster DNS check from the ready and total DNS pods: critical with
/// an issue (305) when there are none, a warning while some are not ready,
/// else a pass; the details give the counts.
pub fn coredns_check(lang: Lang, ready: u32, total: u32, out: &mut Vec<Issue>) -> (r: (CheckStatus, String))
    ensures
        r.0 == (if total == 0 {
            CheckStatus::Critical
        } else if ready < total {
            CheckStatus::Warning
        } else {
            CheckStatus::Pass
        }),
        r.1@ == (if total == 0 {
            pick(lang, "CoreDNS: not found"@, "CoreDNS：未找到"@)
        } else {
            fill(pick(lang, "CoreDNS: {}/{} ready"@, "CoreDNS：{}/{} 就绪"@), seq![dec(ready as nat), dec(total as nat)])
        }),
        issue_views(final(out)@) == issue_views(old(out)@) + coredns_issues(lang, total as nat),
{
    if total == 0 {
        push_obs_issue(lang, IssueSeverity::Critical, "CoreDNS (cluster DNS) not found in kube-system",
            "在 kube-system 中未找到 CoreDNS（集群 DNS）", "kube-system",
            "Ensure CoreDNS or kube-dns is deployed for cluster DNS.",
            "确保为集群 DNS 部署了 CoreDNS 或 kube-dns。", "305", out);
        proof {
            assert(issue_views(out@) =~= issue_views(old(out)@) + coredns_issues(lang, total as nat));
        }
        return (CheckStatus::Critical, owned(lang.t("CoreDNS: not found", "CoreDNS：未找到")));
    }
    proof {
        assert(issue_views(out@) =~= issue_views(old(out)@) + coredns_issues(lang, total as nat));
    }
    let r = u64_to_string(ready as u64);
    let t = u64_to_string(total as u64);
    let details = lang_fmt2(lang, "CoreDNS: {}/{} ready", "CoreDNS：{}/{} 就绪", r.as_str(), t.as_str());
    let status = if ready < total {
        CheckStatus::Warning
    } else {
        CheckStatus::Pass
    };
    (status, details)
}

/// The logging stack check. `found` is what the probes saw: `None` for no
/// collector, `Some(true)` for OpenObserve, `Some(false)` for another
/// collector in `target_ns`. Without one it warns (A03) at 90 points.
pub fn logging_check(lang: Lang, found: Option<bool>, target_ns: &str, out: &mut Vec<Issue>) -> (r: CheckOutcome)
    ensures
        r.name@ == "Logging Stack"@,
        r.description@ == pick(lang, "Checks whether logging collectors are running"@, "检查日志采集器是否正在运行"@),
        found is Some ==> r.status == CheckStatus::Pass && r.score == 100 && r.recommendations@.len() == 0
            && issue_views(final(out)@) == issue_views(old(out)@),
        found == Some(true) ==> r.details@ == pick(lang, "OpenObserve detected (logs ingestion)"@, "检测到 OpenObserve（日志采集）"@),
        found == Some(false) ==> r.details@ == fill(
            pick(lang, "Logging components detected in namespace {}"@, "在命名空间 {} 中检测到日志组件"@),
            seq![target_ns@],
        ),
        found is None ==> r.status == CheckStatus::Warning && r.score == 90
            && r.details@ == pick(lang, "No logging stack found"@, "未找到日志栈"@)
            && strings_view(r.recommendations@) == seq![pick(lang, "Install a logging stack (e.g., Fluent Bit + Loki)."@, "安装日志栈（例如 Fluent Bit + Loki）。"@)]
            && issue_views(final(out)@) == issue_views(old(out)@).push(obs_issue(lang, IssueSeverity::Warning,
                "No logging collector pods detected"@, "未检测到日志采集 Pod"@, target_ns@,
                "Deploy Fluentd/Vector/Logstash to aggregate cluster logs."@, "部署 Fluentd/Vector/Logstash 以聚合集群日志。"@, "A03"@)),
{
    match found {
        Some(openobserve) => {
            let details = if openobserve {
                owned(lang.t("OpenObserve detected (logs ingestion)", "检测到 OpenObserve（日志采集）"))
            } else {
                lang_fmt1(lang, "Logging components detected in namespace {}", "在命名空间 {} 中检测到日志组件", target_ns)
            };
            CheckOutcome {
                name: owned("Logging Stack"),
                description: owned(lang.t("Checks whether logging collectors are running", "检查日志采集器是否正在运行")),
                status: CheckStatus::Pass,
                score: 100,
                details,
                recommendations: Vec::new(),
            }
        },
        None => {
            push_obs_issue(lang, IssueSeverity::Warning, "No logging collector pods detected", "未检测到日志采集 Pod", target_ns,
                "Deploy Fluentd/Vector/Logstash to aggregate cluster logs.", "部署 Fluentd/Vector/Logstash 以聚合集群日志。", "A03", out);
            let recommendations = vec![owned(lang.t("Install a logging stack (e.g., Fluent Bit + Loki).", "安装日志栈（例如 Fluent Bit + Loki）。"))];
            proof {
                assert(strings_view(recommendations@) =~= seq![recommendations@[0]@]);
            }
            CheckOutcome {
                name: owned("Logging Stack"),
                description: owned(lang.t("Checks whether logging collectors are running", "检查日志采集器是否正在运行")),
                status: CheckStatus::Warning,
                score: 90,
                details: owned(lang.t("No logging stack found", "未找到日志栈")),
                recommendations,
            }
        },
    }
}

/// The monitoring check. `found` is what the probes saw: `None` for no
/// Prometheus-compatible component, `Some(true)` for OpenObserve,
/// `Some(false)` for another one. Without one it warns (A04) at 90 points.
pub fn alerting_check(lang: Lang, found: Option<bool>, out: &mut Vec<Issue>) -> (r: CheckOutcome)
    ensures
        r.name@ == "Monitoring & Alerting"@,
        found is Some ==> r.description@ == pick(lang, "Checks for Prometheus/Thanos/VictoriaMetrics components"@, "检查 Prometheus/Thanos/VictoriaMetrics 组件"@),
        found is None ==> r.description@ == pick(lang, "Checks for monitoring stacks"@, "检查监控栈"@),
        found is Some ==> r.status == CheckStatus::Pass && r.score == 100 && r.recommendations@.len() == 0
            && issue_views(final(out)@) == issue_views(old(out)@),
        found == Some(true) ==> r.details@ == pick(lang, "OpenObserve detected"@, "检测到 OpenObserve"@),
        found == Some(false) ==> r.details@ == pick(lang, "Prometheus-compatible component detected"@, "检测到 Prometheus 兼容组件"@),
        found is None ==> r.status == CheckStatus::Warning && r.score == 90
            && r.details@ == pick(lang, "No Prometheus-compatible monitoring detected"@, "未检测到 Prometheus 兼容监控"@)
            && strings_view(r.recommendations@) == seq![pick(lang, "Install Prometheus and Alertmanager for proactive monitoring."@, "安装 Prometheus 和 Alertmanager 以进行主动监控。"@)]
            && issue_views(final(out)@) == issue_views(old(out)@).push(obs_issue(lang, IssueSeverity::Warning,
                "No Prometheus-compatible monitoring found"@, "未找到 Prometheus 兼容的监控"@, "monitoring"@,
                "Deploy Prometheus/Thanos or integrate with managed monitoring."@, "部署 Prometheus/Thanos 或集成托管监控。"@, "A04"@)),
{
    match found {
        Some(openobserve) => {
            let details = if openobserve {
                owned(lang.t("OpenObserve detected", "检测到 OpenObserve"))
            } else {
                owned(lang.t("Prometheus-compatible component detected", "检测到 Prometheus 兼容组件"))
            };
            CheckOutcome {
                name: owned("Monitoring & Alerting"),
                description: owned(lang.t("Checks for Prometheus/Thanos/VictoriaMetrics components", "检查 Prometheus/Thanos/VictoriaMetrics 组件")),
                status: CheckStatus::Pass,
                score: 100,
                details,
                recommendations: Vec::new(),
            }
        },
        None => {
            push_obs_issue(lang, IssueSeverity::Warning, "No Prometheus-compatible monitoring found", "未找到 Prometheus 兼容的监控", "monitoring",
                "Deploy Prometheus/Thanos or integrate with managed monitoring.", "部署 Prometheus/Thanos 或集成托管监控。", "A04", out);
            let recommendations = vec![owned(lang.t("Install Prometheus and Alertmanager for proactive monitoring.", "安装 Prometheus 和 Alertmanager 以进行主动监控。"))];
            proof {
                assert(strings_view(recommendations@) =~= seq![recommendations@[0]@]);
            }
            CheckOutcome {
                name: owned("Monitoring & Alerting"),
                description: owned(lang.t("Checks for monitoring stacks", "检查监控栈")),
                status: CheckStatus::Warning,
                score: 90,
                details: owned(lang.t("No Prometheus-compatible monitoring detected", "未检测到 Prometheus 兼容监控")),
                recommendations,
            }
        },
    }
}

} // verus!
