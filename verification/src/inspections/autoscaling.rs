//! Autoscaling inspection: configuration and health of horizontal pod
//! autoscalers.

use vstd::prelude::*;

use crate::inspections::common::{issue_views, make_issue, make_verdict, or_default, push_issue, str_or, verdict_view, CheckVerdict, IssueSpec};
use crate::inspections::types::{CheckStatus, Issue, IssueSeverity};
use crate::utils::lang::{fill, lang_fmt1, lang_fmt2, pick, Lang};
use crate::utils::text::{dec, owned, str_eq, u64_to_string};

verus! {

/// The target of a metric: which of its three forms are set.
#[derive(Debug, Clone)]
pub struct MetricTargetInfo {
    pub average_utilization: Option<i32>,
    pub average_value: Option<String>,
    pub value: Option<String>,
}

/// The source of a metric: the metric's (or resource's) name and its target.
#[derive(Debug, Clone)]
pub struct MetricSourceInfo {
    pub metric_name: String,
    pub target: MetricTargetInfo,
}

/// One metric of an autoscaler: its type and the source of each type.
#[derive(Debug, Clone)]
pub struct MetricInfo {
    pub type_: String,
    pub resource: Option<MetricSourceInfo>,
    pub pods: Option<MetricSourceInfo>,
    pub object: Option<MetricSourceInfo>,
    pub external: Option<MetricSourceInfo>,
    pub container_resource: Option<MetricSourceInfo>,
}

/// Scaling rules of one direction.
#[derive(Debug, Clone)]
pub struct ScalingRulesInfo {
    pub select_policy: Option<String>,
}

#[derive(Debug, Clone)]
pub struct HpaBehaviorInfo {
    pub scale_up: Option<ScalingRulesInfo>,
    pub scale_down: Option<ScalingRulesInfo>,
}

#[derive(Debug, Clone)]
pub struct HpaSpecInfo {
    pub min_replicas: Option<i32>,
    pub max_replicas: i32,
    pub metrics: Option<Vec<MetricInfo>>,
    pub behavior: Option<HpaBehaviorInfo>,
}

/// What the inspection reads of an autoscaler; `condition_statuses` holds
/// the status of each condition when the autoscaler reports conditions.
#[derive(Debug, Clone)]
pub struct HpaInfo {
    pub name: Option<String>,
    pub spec: Option<HpaSpecInfo>,
    pub condition_statuses: Option<Vec<String>>,
}

/// Outcome of the autoscaler scan: healthy autoscalers and the issues.
#[derive(Debug, Clone)]
pub struct HpaScan {
    pub healthy: usize,
    pub issues: Vec<Issue>,
}

pub open spec fn hpa_issue(
    lang: Lang,
    sev: IssueSeverity,
    hpa: Seq<char>,
    en: Seq<char>,
    zh: Seq<char>,
    args: Seq<Seq<char>>,
    rec_en: Seq<char>,
    rec_zh: Seq<char>,
    rule: Seq<char>,
) -> IssueSpec {
    (sev, "Autoscaling"@, fill(pick(lang, en, zh), args), Some(hpa), pick(lang, rec_en, rec_zh), Some(rule))
}

/// A metric target with none of its three forms set (705).
pub open spec fn target_issues(lang: Lang, hpa: Seq<char>, metric: Seq<char>, t: MetricTargetInfo) -> Seq<IssueSpec> {
    if t.average_utilization is None && t.average_value is None && t.value is None {
        seq![hpa_issue(lang, IssueSeverity::Warning, hpa, "HPA {} metric {} missing scaling target"@,
            "HPA {} 的指标 {} 缺少伸缩目标"@, seq![hpa, metric],
            "Configure averageUtilization, averageValue, or value for the metric target."@,
            "为指标目标配置 averageUtilization、averageValue 或 value。"@, "705"@)]
    } else {
        seq![]
    }
}

/// The source that a metric's type selects.
pub open spec fn metric_source(m: MetricInfo) -> Option<MetricSourceInfo> {
    if m.type_@ == "Resource"@ {
        m.resource
    } else if m.type_@ == "Pods"@ {
        m.pods
    } else if m.type_@ == "Object"@ {
        m.object
    } else if m.type_@ == "External"@ {
        m.external
    } else if m.type_@ == "ContainerResource"@ {
        m.container_resource
    } else {
        None
    }
}

pub open spec fn metric_issues(lang: Lang, hpa: Seq<char>, m: MetricInfo) -> Seq<IssueSpec> {
    match metric_source(m) {
        Some(s) => target_issues(lang, hpa, s.metric_name@, s.target),
        None => seq![],
    }
}

pub open spec fn metrics_issues(lang: Lang, hpa: Seq<char>, ms: Seq<MetricInfo>) -> Seq<IssueSpec>
    decreases ms.len(),
{
    if ms.len() == 0 {
        seq![]
    } else {
        metrics_issues(lang, hpa, ms.drop_last()) + metric_issues(lang, hpa, ms.last())
    }
}

/// Scaling in one direction disabled by its select policy (704).
pub open spec fn behavior_issues(
    lang: Lang,
    hpa: Seq<char>,
    rules: Option<ScalingRulesInfo>,
    dir_en: Seq<char>,
    dir_zh: Seq<char>,
) -> Seq<IssueSpec> {
    if rules is Some && rules->0.select_policy is Some && rules->0.select_policy->0@ == "Disabled"@ {
        seq![hpa_issue(lang, IssueSeverity::Info, hpa, "HPA {} has {} behavior disabled"@,
            "HPA {} 的 {} 行为已禁用"@, seq![hpa, pick(lang, dir_en, dir_zh)],
            "Review HPA behavior policy to ensure scaling is permitted when needed."@,
            "检查 HPA 行为策略，确保在需要时允许伸缩。"@, "704"@)]
    } else {
        seq![]
    }
}

pub open spec fn min_replicas_or_one(s: HpaSpecInfo) -> int {
    match s.min_replicas {
        Some(m) => m as int,
        None => 1,
    }
}

/// Issues of an autoscaler's spec: identical min/max replicas (701), then
/// its metrics (705) or no metrics at all (702), then disabled scaling
/// directions (704).
pub open spec fn spec_issues(lang: Lang, hpa: Seq<char>, s: HpaSpecInfo) -> Seq<IssueSpec> {
    let same = if min_replicas_or_one(s) == s.max_replicas as int {
        seq![hpa_issue(lang, IssueSeverity::Warning, hpa, "HPA {} has identical min/max replicas"@,
            "HPA {} 的 min/max 副本数相同"@, seq![hpa],
            "Set a wider min/max replica range so the HPA can scale."@,
            "设置更宽的 min/max 副本范围，以便 HPA 可以伸缩。"@, "701"@)]
    } else {
        seq![]
    };
    let metrics = match s.metrics {
        Some(ms) => metrics_issues(lang, hpa, ms@),
        None => seq![hpa_issue(lang, IssueSeverity::Critical, hpa, "HPA {} has no metrics configured"@,
            "HPA {} 未配置指标"@, seq![hpa], "Define CPU/Memory or custom metrics for this HPA."@,
            "为此 HPA 定义 CPU/内存或自定义指标。"@, "702"@)],
    };
    let behavior = match s.behavior {
        Some(b) => behavior_issues(lang, hpa, b.scale_up, "scale-up"@, "扩容"@)
            + behavior_issues(lang, hpa, b.scale_down, "scale-down"@, "缩容"@),
        None => seq![],
    };
    same + metrics + behavior
}

pub open spec fn all_true(cs: Seq<String>) -> bool {
    forall|i: int| 0 <= i < cs.len() ==> #[trigger] cs[i]@ == "True"@
}

/// An autoscaler is healthy when it reports conditions and all are true.
pub open spec fn hpa_healthy(h: HpaInfo) -> bool {
    h.condition_statuses is Some && all_true(h.condition_statuses->0@)
}

/// All issues of one autoscaler: those of its spec, then unhealthy
/// conditions (703).
pub open spec fn hpa_issues(lang: Lang, h: HpaInfo) -> Seq<IssueSpec> {
    let name = or_default(h.name, "unknown"@);
    let from_spec = match h.spec {
        Some(s) => spec_issues(lang, name, s),
        None => seq![],
    };
    let from_status = if h.condition_statuses is Some && !all_true(h.condition_statuses->0@) {
        seq![hpa_issue(lang, IssueSeverity::Critical, name, "HPA {} reports unhealthy conditions"@,
            "HPA {} 报告不健康的条件"@, seq![name],
            "Check target workload readiness and metrics availability."@,
            "检查目标工作负载的就绪状态和指标可用性。"@, "703"@)]
    } else {
        seq![]
    };
    from_spec + from_status
}

pub open spec fn hpas_issues(lang: Lang, hs: Seq<HpaInfo>) -> Seq<IssueSpec>
    decreases hs.len(),
{
    if hs.len() == 0 {
        seq![]
    } else {
        hpas_issues(lang, hs.drop_last()) + hpa_issues(lang, hs.last())
    }
}

pub open spec fn healthy_hpas(hs: Seq<HpaInfo>) -> nat
    decreases hs.len(),
{
    if hs.len() == 0 {
        0
    } else {
        healthy_hpas(hs.drop_last()) + if hpa_healthy(hs.last()) {
            1nat
        } else {
            0nat
        }
    }
}

proof fn lemma_healthy_hpas_bound(hs: Seq<HpaInfo>)
    ensures
        healthy_hpas(hs) <= hs.len(),
    decreases hs.len(),
{
    if hs.len() > 0 {
        lemma_healthy_hpas_bound(hs.drop_last());
    }
}

fn push_hpa_issue(
    lang: Lang,
    sev: IssueSeverity,
    hpa: &str,
    description: String,
    rec_en: &str,
    rec_zh: &str,
    rule: &str,
    out: &mut Vec<Issue>,
)
    ensures
        issue_views(final(out)@) == issue_views(old(out)@).push(
            (sev, "Autoscaling"@, description@, Some(hpa@), pick(lang, rec_en@, rec_zh@), Some(rule@)),
        ),
{
    let issue = make_issue(sev, "Autoscaling", description, owned(hpa), lang.t(rec_en, rec_zh), rule);
    push_issue(out, issue);
}

/// Reports a metric target that sets none of its forms.
pub fn validate_target(lang: Lang, target: &MetricTargetInfo, metric_name: &str, hpa: &str, out: &mut Vec<Issue>)
    ensures
        issue_views(final(out)@) == issue_views(old(out)@) + target_issues(lang, hpa@, metric_name@, *target),
{
    if target.average_utilization.is_none() && target.average_value.is_none() && target.value.is_none() {
        let d = lang_fmt2(lang, "HPA {} metric {} missing scaling target", "HPA {} 的指标 {} 缺少伸缩目标", hpa, metric_name);
        push_hpa_issue(lang, IssueSeverity::Warning, hpa, d,
            "Configure averageUtilization, averageValue, or value for the metric target.",
            "为指标目标配置 averageUtilization、averageValue 或 value。", "705", out);
        proof {
            assert(issue_views(out@) =~= issue_views(old(out)@) + target_issues(lang, hpa@, metric_name@, *target));
        }
    } else {
        proof {
            assert(issue_views(out@) =~= issue_views(old(out)@) + target_issues(lang, hpa@, metric_name@, *target));
        }
    }
}

fn select_source(m: &MetricInfo) -> (r: Option<&MetricSourceInfo>)
    ensures
        metric_source(*m) is None ==> r is None,
        metric_source(*m) is Some ==> r is Some && *r->0 == metric_source(*m)->0,
{
    let t = m.type_.as_str();
    if str_eq(t, "Resource") {
        m.resource.as_ref()
    } else if str_eq(t, "Pods") {
        m.pods.as_ref()
    } else if str_eq(t, "Object") {
        m.object.as_ref()
    } else if str_eq(t, "External") {
        m.external.as_ref()
    } else if str_eq(t, "ContainerResource") {
        m.container_resource.as_ref()
    } else {
        None
    }
}

/// Checks the target of the source that the metric's type selects.
pub fn validate_metric(lang: Lang, m: &MetricInfo, hpa: &str, out: &mut Vec<Issue>)
    ensures
        issue_views(final(out)@) == issue_views(old(out)@) + metric_issues(lang, hpa@, *m),
{
    match select_source(m) {
        Some(s) => validate_target(lang, &s.target, s.metric_name.as_str(), hpa, out),
        None => {
            proof {
                assert(issue_views(out@) =~= issue_views(old(out)@) + metric_issues(lang, hpa@, *m));
            }
        },
    }
}

/// Reports a scaling direction whose select policy disables it.
pub fn validate_behavior(
    lang: Lang,
    rules: &Option<ScalingRulesInfo>,
    hpa: &str,
    dir_en: &str,
    dir_zh: &str,
    out: &mut Vec<Issue>,
)
    ensures
        issue_views(final(out)@) == issue_views(old(out)@) + behavior_issues(lang, hpa@, *rules, dir_en@, dir_zh@),
{
    let disabled = match rules {
        Some(r) => match &r.select_policy {
            Some(p) => str_eq(p.as_str(), "Disabled"),
            None => false,
        },
        None => false,
    };
    if disabled {
        let d = lang_fmt2(lang, "HPA {} has {} behavior disabled", "HPA {} 的 {} 行为已禁用", hpa, lang.t(dir_en, dir_zh));
        push_hpa_issue(lang, IssueSeverity::Info, hpa, d,
            "Review HPA behavior policy to ensure scaling is permitted when needed.",
            "检查 HPA 行为策略，确保在需要时允许伸缩。", "704", out);
    }
    proof {
        assert(issue_views(out@) =~= issue_views(old(out)@) + behavior_issues(lang, hpa@, *rules, dir_en@, dir_zh@));
    }
}

fn check_spec(lang: Lang, s: &HpaSpecInfo, hpa: &str, out: &mut Vec<Issue>)
    ensures
        issue_views(final(out)@) == issue_views(old(out)@) + spec_issues(lang, hpa@, *s),
{
    let ghost start = issue_views(out@);
    let min = match s.min_replicas {
        Some(m) => m,
        None => 1,
    };
    if min == s.max_replicas {
        let d = lang_fmt1(lang, "HPA {} has identical min/max replicas", "HPA {} 的 min/max 副本数相同", hpa);
        push_hpa_issue(lang, IssueSeverity::Warning, hpa, d,
            "Set a wider min/max replica range so the HPA can scale.",
            "设置更宽的 min/max 副本范围，以便 HPA 可以伸缩。", "701", out);
    }
    let ghost after_same = issue_views(out@);
    match &s.metrics {
        Some(ms) => {
            let mut i: usize = 0;
            while i < ms.len()
                invariant
                    i <= ms.len(),
                    issue_views(out@) == after_same + metrics_issues(lang, hpa@, ms@.take(i as int)),
                decreases ms.len() - i,
            {
                proof {
                    assert(ms@.take(i as int + 1).drop_last() =~= ms@.take(i as int));
                }
                validate_metric(lang, &ms[i], hpa, out);
                proof {
                    assert(issue_views(out@) =~= after_same + metrics_issues(lang, hpa@, ms@.take(i as int + 1)));
                }
                i = i + 1;
            }
            proof {
                assert(ms@.take(ms.len() as int) =~= ms@);
            }
        },
        None => {
            let d = lang_fmt1(lang, "HPA {} has no metrics configured", "HPA {} 未配置指标", hpa);
            push_hpa_issue(lang, IssueSeverity::Critical, hpa, d,
                "Define CPU/Memory or custom metrics for this HPA.",
                "为此 HPA 定义 CPU/内存或自定义指标。", "702", out);
        },
    }
    let ghost after_metrics = issue_views(out@);
    match &s.behavior {
        Some(b) => {
            validate_behavior(lang, &b.scale_up, hpa, "scale-up", "扩容", out);
            validate_behavior(lang, &b.scale_down, hpa, "scale-down", "缩容", out);
        },
        None => {},
    }
    proof {
        assert(issue_views(out@) =~= start + spec_issues(lang, hpa@, *s));
    }
}

fn all_true_exec(cs: &Vec<String>) -> (r: bool)
    ensures
        r == all_true(cs@),
{
    let mut i: usize = 0;
    while i < cs.len()
        invariant
            i <= cs.len(),
            forall|j: int| 0 <= j < i ==> #[trigger] cs@[j]@ == "True"@,
        decreases cs.len() - i,
    {
        if !str_eq(cs[i].as_str(), "True") {
            return false;
        }
        i = i + 1;
    }
    true
}

/// Scans the autoscalers: each one's spec issues and condition health.
pub fn inspect_hpas(lang: Lang, hpas: &Vec<HpaInfo>) -> (r: HpaScan)
    ensures
        r.healthy == healthy_hpas(hpas@),
        r.healthy <= hpas.len(),
        issue_views(r.issues@) == hpas_issues(lang, hpas@),
{
    let mut issues: Vec<Issue> = Vec::new();
    let mut healthy: usize = 0;
    let mut i: usize = 0;
    proof {
        assert(issue_views(issues@) =~= hpas_issues(lang, hpas@.take(0)));
    }
    while i < hpas.len()
        invariant
            i <= hpas.len(),
            healthy == healthy_hpas(hpas@.take(i as int)),
            healthy <= i,
            issue_views(issues@) == hpas_issues(lang, hpas@.take(i as int)),
        decreases hpas.len() - i,
    {
        proof {
            assert(hpas@.take(i as int + 1).drop_last() =~= hpas@.take(i as int));
        }
        let h = &hpas[i];
        let name = str_or(&h.name, "unknown");
        let ghost before = issue_views(issues@);
        match &h.spec {
            Some(s) => check_spec(lang, s, name, &mut issues),
            None => {},
        }
        match &h.condition_statuses {
            Some(cs) => {
                if all_true_exec(cs) {
                    healthy = healthy + 1;
                } else {
                    let d = lang_fmt1(lang, "HPA {} reports unhealthy conditions", "HPA {} 报告不健康的条件", name);
                    push_hpa_issue(lang, IssueSeverity::Critical, name, d,
                        "Check target workload readiness and metrics availability.",
                        "检查目标工作负载的就绪状态和指标可用性。", "703", &mut issues);
                }
            },
            None => {},
        }
        proof {
            assert(issue_views(issues@) =~= before + hpa_issues(lang, *h));
        }
        i = i + 1;
    }
    proof {
        assert(hpas@.take(hpas.len() as int) =~= hpas@);
    }
    HpaScan { healthy, issues }
}

/// Details of the autoscaler check: healthy out of all autoscalers.
pub fn hpa_details(lang: Lang, healthy: usize, total: usize) -> (r: String)
    ensures
        r@ == fill(pick(lang, "{}/{} HPAs healthy"@, "{}/{} 个 HPA 健康"@), seq![dec(healthy as nat), dec(total as nat)]),
{
    let h = u64_to_string(healthy as u64);
    let t = u64_to_string(total as u64);
    lang_fmt2(lang, "{}/{} HPAs healthy", "{}/{} 个 HPA 健康", h.as_str(), t.as_str())
}


/// Status of a ratio of healthy objects against two thresholds in tenths
/// of a percent.
pub open spec fn ratio_status(healthy: nat, total: nat, pass_permille: nat, warn_permille: nat) -> CheckStatus {
    if 1000 * healthy >= pass_permille * total {
        CheckStatus::Pass
    } else if 1000 * healthy >= warn_permille * total {
        CheckStatus::Warning
    } else {
        CheckStatus::Critical
    }
}

/// Grades a ratio of healthy objects.
pub fn grade_ratio(healthy: usize, total: usize, pass_permille: u32, warn_permille: u32) -> (r: CheckStatus)
    requires
        pass_permille <= 1000,
        warn_permille <= 1000,
    ensures
        r == ratio_status(healthy as nat, total as nat, pass_permille as nat, warn_permille as nat),
{
    let h = (healthy as u128) * 1000;
    let t = total as u128;
    proof {
        assert((pass_permille as u128) * t <= 1000 * 0x1_0000_0000_0000_0000) by (nonlinear_arith)
            requires
                pass_permille <= 1000,
                t <= 0x1_0000_0000_0000_0000,
        ;
        assert((warn_permille as u128) * t <= 1000 * 0x1_0000_0000_0000_0000) by (nonlinear_arith)
            requires
                warn_permille <= 1000,
                t <= 0x1_0000_0000_0000_0000,
        ;
    }
    if h >= (pass_permille as u128) * t {
        CheckStatus::Pass
    } else if h >= (warn_permille as u128) * t {
        CheckStatus::Warning
    } else {
        CheckStatus::Critical
    }
}

/// The autoscaler check. Without autoscalers it warns (its score is 70);
/// else its score is the healthy share, passing from 90% and warning from
/// 70%, with a recommendation unless all are healthy.
pub fn hpa_verdict(lang: Lang, healthy: usize, total: usize) -> (r: CheckVerdict)
    ensures
        total == 0 ==> verdict_view(r) == ("Horizontal Pod Autoscalers"@, pick(lang, "Evaluates health and configuration of HPAs"@, "评估 HPA 的健康状态和配置"@),
            CheckStatus::Warning, pick(lang, "No HPAs detected in the target scope"@, "在目标范围内未检测到 HPA"@),
            seq![pick(lang, "Consider deploying HPAs to improve workload elasticity."@, "考虑部署 HPA 以提高工作负载弹性。"@)]),
        total > 0 ==> verdict_view(r) == ("Horizontal Pod Autoscalers"@, pick(lang, "Checks configuration and health of HPAs"@, "检查 HPA 的配置和健康状态"@),
            ratio_status(healthy as nat, total as nat, 900, 700),
            fill(pick(lang, "{}/{} HPAs healthy"@, "{}/{} 个 HPA 健康"@), seq![dec(healthy as nat), dec(total as nat)]),
            if healthy < total {
                seq![pick(lang, "Ensure metrics.k8s.io and custom metric APIs are available, and verify workload readiness."@, "确保 metrics.k8s.io 和自定义指标 API 可用，并验证工作负载的就绪状态。"@)]
            } else {
                Seq::<Seq<char>>::empty()
            }),
{
    if total == 0 {
        return make_verdict(lang, "Horizontal Pod Autoscalers", "Evaluates health and configuration of HPAs", "评估 HPA 的健康状态和配置",
            CheckStatus::Warning, owned(lang.t("No HPAs detected in the target scope", "在目标范围内未检测到 HPA")),
            Some(("Consider deploying HPAs to improve workload elasticity.", "考虑部署 HPA 以提高工作负载弹性。")));
    }
    let status = grade_ratio(healthy, total, 900, 700);
    let details = hpa_details(lang, healthy, total);
    let rec = if healthy < total {
        Some(("Ensure metrics.k8s.io and custom metric APIs are available, and verify workload readiness.", "确保 metrics.k8s.io 和自定义指标 API 可用，并验证工作负载的就绪状态。"))
    } else {
        None
    };
    make_verdict(lang, "Horizontal Pod Autoscalers", "Checks configuration and health of HPAs", "检查 HPA 的配置和健康状态", status, details, rec)
}

} // verus!
