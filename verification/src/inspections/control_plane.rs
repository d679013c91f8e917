//! Control plane inspection: component statuses and the static
//! control-plane pods in kube-system.

use vstd::prelude::*;

use crate::inspections::autoscaling::{grade_ratio, ratio_status};
use crate::inspections::common::{
    issue_views, make_issue, make_outcome, make_verdict, or_default, outcome_view, push_issue, str_or, verdict_view, CheckOutcome,
    CheckVerdict, IssueSpec,
};
use crate::inspections::observability::{is_pod_ready, pod_ready, PodProbe};
use crate::inspections::types::{CheckStatus, Issue, IssueSeverity};
use crate::utils::lang::{fill, lang_fmt1, lang_fmt2, lang_fmt3, pick, Lang};
use crate::utils::text::{chars_of, contains, contains_str, dec, owned, str_eq, u64_to_string};

verus! {

pub open spec fn ascii_lower(c: char) -> char {
    if 'A' <= c <= 'Z' {
        ((c as u32) + 32) as char
    } else {
        c
    }
}

/// Equality of two strings up to the case of ASCII letters.
pub open spec fn eq_ignore_ascii_case(a: Seq<char>, b: Seq<char>) -> bool {
    a.len() == b.len() && forall|i: int| 0 <= i < a.len() ==> #[trigger] ascii_lower(a[i]) == ascii_lower(b[i])
}

fn ascii_lower_exec(c: char) -> (r: char)
    ensures
        r == ascii_lower(c),
{
    if 'A' <= c && c <= 'Z' {
        let u: u32 = (c as u32) + 32;
        proof {
            assert(u <= 0x7f);
        }
        u as u8 as char
    } else {
        c
    }
}

/// Compares two strings ignoring the case of ASCII letters.
pub fn eq_ignore_case(a: &str, b: &str) -> (r: bool)
    ensures
        r == eq_ignore_ascii_case(a@, b@),
{
    let av = chars_of(a);
    let bv = chars_of(b);
    if av.len() != bv.len() {
        return false;
    }
    let mut i: usize = 0;
    while i < av.len()
        invariant
            i <= av.len(),
            av.len() == bv.len(),
            av@ == a@,
            bv@ == b@,
            forall|j: int| 0 <= j < i ==> #[trigger] ascii_lower(av@[j]) == ascii_lower(bv@[j]),
        decreases av.len() - i,
    {
        if ascii_lower_exec(av[i]) != ascii_lower_exec(bv[i]) {
            return false;
        }
        i = i + 1;
    }
    true
}

/// Whether a failed listing of component statuses means that the API is
/// gone (removed in Kubernetes 1.24), from the API error's code, message
/// and reason.
pub open spec fn status_api_gone(code: u16, message: Seq<char>, reason: Seq<char>) -> bool {
    code == 404 || code == 410 || contains(message, "could not find the requested resource"@)
        || eq_ignore_ascii_case(reason, "NotFound"@)
}

/// Whether an API error says that component statuses are unavailable.
pub fn is_component_status_unavailable(code: u16, message: &str, reason: &str) -> (r: bool)
    ensures
        r == status_api_gone(code, message@, reason@),
{
    if code == 404 || code == 410 {
        return true;
    }
    let mv = chars_of(message);
    contains_str(&mv, "could not find the requested resource") || eq_ignore_case(reason, "NotFound")
}

/// What the inspection reads of a component status: its name and, when it
/// reports conditions, each condition's type and status.
#[derive(Debug, Clone)]
pub struct ComponentInfo {
    pub name: Option<String>,
    pub conditions: Option<Vec<(String, String)>>,
}

/// Outcome of a scan: objects evaluated, healthy ones and the issues.
#[derive(Debug, Clone)]
pub struct HealthScan {
    pub evaluated: usize,
    pub healthy: usize,
    pub issues: Vec<Issue>,
}

pub open spec fn cp_issue(lang: Lang, name: Seq<char>, description: Seq<char>, rec_en: Seq<char>, rec_zh: Seq<char>, rule: Seq<char>) -> IssueSpec {
    (IssueSeverity::Critical, "ControlPlane"@, description, Some(name), pick(lang, rec_en, rec_zh), Some(rule))
}

/// One issue (601) per condition of the component that is not true.
pub open spec fn condition_issues(lang: Lang, name: Seq<char>, cs: Seq<(String, String)>) -> Seq<IssueSpec>
    decreases cs.len(),
{
    if cs.len() == 0 {
        seq![]
    } else {
        let c = cs.last();
        condition_issues(lang, name, cs.drop_last()) + if c.1@ != "True"@ {
            seq![cp_issue(lang, name, fill(pick(lang, "Component {} reports {} = {}"@, "组件 {} 报告 {} = {}"@), seq![name, c.0@, c.1@]),
                "Inspect control-plane logs and ensure all components are running and healthy."@,
                "检查控制平面日志并确保所有组件正常运行且健康。"@, "601"@)]
        } else {
            seq![]
        }
    }
}

pub open spec fn conditions_true(cs: Seq<(String, String)>) -> bool {
    forall|i: int| 0 <= i < cs.len() ==> #[trigger] cs[i].1@ == "True"@
}

/// A component is healthy when it reports conditions and all are true.
pub open spec fn component_healthy(c: ComponentInfo) -> bool {
    c.conditions is Some && conditions_true(c.conditions->0@)
}

pub open spec fn component_issues(lang: Lang, c: ComponentInfo) -> Seq<IssueSpec> {
    match c.conditions {
        Some(cs) => condition_issues(lang, or_default(c.name, "unknown"@), cs@),
        None => seq![],
    }
}

pub open spec fn components_issues(lang: Lang, cs: Seq<ComponentInfo>) -> Seq<IssueSpec>
    decreases cs.len(),
{
    if cs.len() == 0 {
        seq![]
    } else {
        components_issues(lang, cs.drop_last()) + component_issues(lang, cs.last())
    }
}

pub open spec fn healthy_components(cs: Seq<ComponentInfo>) -> nat
    decreases cs.len(),
{
    if cs.len() == 0 {
        0
    } else {
        healthy_components(cs.drop_last()) + if component_healthy(cs.last()) {
            1nat
        } else {
            0nat
        }
    }
}

proof fn lemma_healthy_components_bound(cs: Seq<ComponentInfo>)
    ensures
        healthy_components(cs) <= cs.len(),
    decreases cs.len(),
{
    if cs.len() > 0 {
        lemma_healthy_components_bound(cs.drop_last());
    }
}

fn check_conditions(lang: Lang, name: &str, cs: &Vec<(String, String)>, out: &mut Vec<Issue>) -> (all_true: bool)
    ensures
        all_true == conditions_true(cs@),
        issue_views(final(out)@) == issue_views(old(out)@) + condition_issues(lang, name@, cs@),
{
    let ghost start = issue_views(out@);
    let mut all_true = true;
    let mut i: usize = 0;
    while i < cs.len()
        invariant
            i <= cs.len(),
            all_true == conditions_true(cs@.take(i as int)),
            issue_views(out@) == start + condition_issues(lang, name@, cs@.take(i as int)),
        decreases cs.len() - i,
    {
        proof {
            assert(cs@.take(i as int + 1).drop_last() =~= cs@.take(i as int));
        }
        let c = &cs[i];
        let ghost before = issue_views(out@);
        if !str_eq(c.1.as_str(), "True") {
            all_true = false;
            let d = lang_fmt3(lang, "Component {} reports {} = {}", "组件 {} 报告 {} = {}", name, c.0.as_str(), c.1.as_str());
            let issue = make_issue(IssueSeverity::Critical, "ControlPlane", d, owned(name),
                lang.t("Inspect control-plane logs and ensure all components are running and healthy.", "检查控制平面日志并确保所有组件正常运行且健康。"),
                "601");
            push_issue(out, issue);
        }
        proof {
            assert(issue_views(out@) =~= start + condition_issues(lang, name@, cs@.take(i as int + 1)));
            let t = cs@.take(i as int + 1);
            if all_true {
                assert forall|j: int| 0 <= j < t.len() implies #[trigger] t[j].1@ == "True"@ by {
                    if j < i {
                        assert(t[j] == cs@.take(i as int)[j]);
                    }
                }
            } else if c.1@ == "True"@ {
                let w = choose|j: int| 0 <= j < i && !(#[trigger] cs@.take(i as int)[j].1@ == "True"@);
                assert(t[w] == cs@.take(i as int)[w]);
            }
        }
        i = i + 1;
    }
    proof {
        assert(cs@.take(cs.len() as int) =~= cs@);
    }
    all_true
}

/// Scans the component statuses: each false condition is an issue (601);
/// components whose conditions are all true are healthy.
pub fn scan_components(lang: Lang, comps: &Vec<ComponentInfo>) -> (r: HealthScan)
    ensures
        r.evaluated == comps.len(),
        r.healthy == healthy_components(comps@),
        r.healthy <= r.evaluated,
        issue_views(r.issues@) == components_issues(lang, comps@),
{
    let mut issues: Vec<Issue> = Vec::new();
    let mut healthy: usize = 0;
    let mut i: usize = 0;
    proof {
        assert(issue_views(issues@) =~= components_issues(lang, comps@.take(0)));
    }
    while i < comps.len()
        invariant
            i <= comps.len(),
            healthy == healthy_components(comps@.take(i as int)),
            healthy <= i,
            issue_views(issues@) == components_issues(lang, comps@.take(i as int)),
        decreases comps.len() - i,
    {
        proof {
            assert(comps@.take(i as int + 1).drop_last() =~= comps@.take(i as int));
        }
        let c = &comps[i];
        let ghost before = issue_views(issues@);
        match &c.conditions {
            Some(cs) => {
                let name = str_or(&c.name, "unknown");
                if check_conditions(lang, name, cs, &mut issues) {
                    healthy = healthy + 1;
                }
            },
            None => {},
        }
        proof {
            assert(issue_views(issues@) =~= before + component_issues(lang, *c));
        }
        i = i + 1;
    }
    proof {
        assert(comps@.take(comps.len() as int) =~= comps@);
    }
    HealthScan { evaluated: comps.len(), healthy, issues }
}

/// Details of the component status check.
pub fn component_details(lang: Lang, healthy: usize, total: usize) -> (r: String)
    ensures
        r@ == fill(pick(lang, "{}/{} components healthy"@, "{}/{} 个组件健康"@), seq![dec(healthy as nat), dec(total as nat)]),
{
    let h = u64_to_string(healthy as u64);
    let t = u64_to_string(total as u64);
    lang_fmt2(lang, "{}/{} components healthy", "{}/{} 个组件健康", h.as_str(), t.as_str())
}

/// Whether a pod name names a control-plane component.
pub open spec fn control_plane_name(name: Seq<char>) -> bool {
    contains(name, "kube-apiserver"@) || contains(name, "kube-controller-manager"@) || contains(name, "kube-scheduler"@)
        || contains(name, "etcd"@)
}

pub open spec fn cp_pod_evaluated(p: PodProbe) -> bool {
    p.name is Some && control_plane_name(p.name->0@)
}

pub open spec fn cp_pods_issues(lang: Lang, ps: Seq<PodProbe>) -> Seq<IssueSpec>
    decreases ps.len(),
{
    if ps.len() == 0 {
        seq![]
    } else {
        let p = ps.last();
        cp_pods_issues(lang, ps.drop_last()) + if cp_pod_evaluated(p) && !pod_ready(p) {
            seq![cp_issue(lang, p.name->0@, fill(pick(lang, "Control plane pod {} is not running"@, "控制平面 Pod {} 未运行"@), seq![p.name->0@]),
                "Check the static pod manifest and node health for this component."@,
                "检查此组件的静态 Pod 清单和节点健康状态。"@, "602"@)]
        } else {
            seq![]
        }
    }
}

/// Control-plane pods, and how many of them run with all containers ready.
pub open spec fn cp_pod_counts(ps: Seq<PodProbe>) -> (nat, nat)
    decreases ps.len(),
{
    if ps.len() == 0 {
        (0, 0)
    } else {
        let prev = cp_pod_counts(ps.drop_last());
        let p = ps.last();
        if cp_pod_evaluated(p) {
            (prev.0 + 1, prev.1 + if pod_ready(p) { 1nat } else { 0nat })
        } else {
            prev
        }
    }
}

proof fn lemma_cp_pod_counts_bound(ps: Seq<PodProbe>)
    ensures
        cp_pod_counts(ps).1 <= cp_pod_counts(ps).0 <= ps.len(),
    decreases ps.len(),
{
    if ps.len() > 0 {
        lemma_cp_pod_counts_bound(ps.drop_last());
    }
}

/// Scans the kube-system pods for the control-plane components; each one
/// that is not running with all containers ready is an issue (602).
pub fn scan_control_plane_pods(lang: Lang, pods: &Vec<PodProbe>) -> (r: HealthScan)
    ensures
        r.evaluated == cp_pod_counts(pods@).0,
        r.healthy == cp_pod_counts(pods@).1,
        issue_views(r.issues@) == cp_pods_issues(lang, pods@),
{
    let mut issues: Vec<Issue> = Vec::new();
    let mut evaluated: usize = 0;
    let mut healthy: usize = 0;
    let mut i: usize = 0;
    proof {
        assert(issue_views(issues@) =~= cp_pods_issues(lang, pods@.take(0)));
    }
    while i < pods.len()
        invariant
            i <= pods.len(),
            evaluated == cp_pod_counts(pods@.take(i as int)).0,
            healthy == cp_pod_counts(pods@.take(i as int)).1,
            issue_views(issues@) == cp_pods_issues(lang, pods@.take(i as int)),
        decreases pods.len() - i,
    {
        proof {
            assert(pods@.take(i as int + 1).drop_last() =~= pods@.take(i as int));
            lemma_cp_pod_counts_bound(pods@.take(i as int));
        }
        let p = &pods[i];
        let ghost before = issue_views(issues@);
        match &p.name {
            Some(name) => {
                let v = chars_of(name.as_str());
                let cp = contains_str(&v, "kube-apiserver") || contains_str(&v, "kube-controller-manager")
                    || contains_str(&v, "kube-scheduler") || contains_str(&v, "etcd");
                if cp {
                    evaluated = evaluated + 1;
                    if !is_pod_ready(p) {
                        let d = lang_fmt1(lang, "Control plane pod {} is not running", "控制平面 Pod {} 未运行", name.as_str());
                        let issue = make_issue(IssueSeverity::Critical, "ControlPlane", d, owned(name.as_str()),
                            lang.t("Check the static pod manifest and node health for this component.", "检查此组件的静态 Pod 清单和节点健康状态。"),
                            "602");
                        push_issue(&mut issues, issue);
                    } else {
                        healthy = healthy + 1;
                    }
                }
            },
            None => {},
        }
        proof {
            assert(issue_views(issues@) =~= cp_pods_issues(lang, pods@.take(i as int + 1)));
        }
        i = i + 1;
    }
    proof {
        assert(pods@.take(pods.len() as int) =~= pods@);
    }
    HealthScan { evaluated, healthy, issues }
}

/// Details of the control-plane pod check.
pub fn control_plane_pod_details(lang: Lang, healthy: usize, evaluated: usize) -> (r: String)
    ensures
        evaluated == 0 ==> r@ == pick(lang, "No static control-plane pods detected (managed control plane?)"@, "未检测到静态控制平面 Pod（托管控制平面？）"@),
        evaluated > 0 ==> r@ == fill(pick(lang, "{}/{} control-plane pods running"@, "{}/{} 个控制平面 Pod 正在运行"@), seq![dec(healthy as nat), dec(evaluated as nat)]),
{
    if evaluated == 0 {
        owned(lang.t("No static control-plane pods detected (managed control plane?)", "未检测到静态控制平面 Pod（托管控制平面？）"))
    } else {
        let h = u64_to_string(healthy as u64);
        let t = u64_to_string(evaluated as u64);
        lang_fmt2(lang, "{}/{} control-plane pods running", "{}/{} 个控制平面 Pod 正在运行", h.as_str(), t.as_str())
    }
}


/// The component status check when the API is gone: a skipped pass.
pub fn component_status_skipped(lang: Lang) -> (r: CheckOutcome)
    ensures
        outcome_view(r) == ("Component Status"@, pick(lang, "Checks the health of core control-plane components"@, "检查核心控制平面组件的健康状态"@),
            CheckStatus::Pass, 100nat, pick(lang, "Component Status API not available (e.g. Kubernetes 1.24+); check skipped."@, "Component Status API 不可用（例如 Kubernetes 1.24+）；已跳过检查。"@),
            Seq::<Seq<char>>::empty()),
{
    let recs: Vec<String> = Vec::new();
    proof {
        assert(recs@.map_values(|s: String| s@) =~= Seq::<Seq<char>>::empty());
    }
    make_outcome("Component Status", lang.t("Checks the health of core control-plane components", "检查核心控制平面组件的健康状态"),
        CheckStatus::Pass, 100, owned(lang.t("Component Status API not available (e.g. Kubernetes 1.24+); check skipped.", "Component Status API 不可用（例如 Kubernetes 1.24+）；已跳过检查。")),
        recs)
}

/// The component status check: its score is the healthy share (0 without
/// components), passing from 99.9% and warning from 80%, with a
/// recommendation below 100%.
pub fn component_verdict(lang: Lang, healthy: usize, total: usize) -> (r: CheckVerdict)
    ensures
        verdict_view(r) == ("Component Status"@, pick(lang, "Checks the health of core control-plane components"@, "检查核心控制平面组件的健康状态"@),
            if total == 0 { CheckStatus::Critical } else { ratio_status(healthy as nat, total as nat, 999, 800) },
            fill(pick(lang, "{}/{} components healthy"@, "{}/{} 个组件健康"@), seq![dec(healthy as nat), dec(total as nat)]),
            if total == 0 || healthy < total {
                seq![pick(lang, "Review kube-system pod logs and ensure all static pods are Running."@, "检查 kube-system Pod 日志并确保所有静态 Pod 处于运行状态。"@)]
            } else {
                Seq::<Seq<char>>::empty()
            }),
{
    let status = if total == 0 {
        CheckStatus::Critical
    } else {
        grade_ratio(healthy, total, 999, 800)
    };
    let details = component_details(lang, healthy, total);
    let rec = if total == 0 || healthy < total {
        Some(("Review kube-system pod logs and ensure all static pods are Running.", "检查 kube-system Pod 日志并确保所有静态 Pod 处于运行状态。"))
    } else {
        None
    };
    make_verdict(lang, "Component Status", "Checks the health of core control-plane components", "检查核心控制平面组件的健康状态", status, details, rec)
}

/// The control-plane pod check: its score is the running share (100
/// without such pods), passing from 99.9% and warning from 80%, with a
/// recommendation below 100%.
pub fn control_plane_pod_verdict(lang: Lang, healthy: usize, evaluated: usize) -> (r: CheckVerdict)
    ensures
        verdict_view(r).0 == "Control Plane Pods"@,
        verdict_view(r).1 == pick(lang, "Validates that key control-plane pods in kube-system are running"@, "验证 kube-system 中的关键控制平面 Pod 是否正在运行"@),
        verdict_view(r).2 == (if evaluated == 0 { CheckStatus::Pass } else { ratio_status(healthy as nat, evaluated as nat, 999, 800) }),
        evaluated == 0 ==> r.details@ == pick(lang, "No static control-plane pods detected (managed control plane?)"@, "未检测到静态控制平面 Pod（托管控制平面？）"@),
        evaluated > 0 ==> r.details@ == fill(pick(lang, "{}/{} control-plane pods running"@, "{}/{} 个控制平面 Pod 正在运行"@), seq![dec(healthy as nat), dec(evaluated as nat)]),
        verdict_view(r).4 == if evaluated > 0 && healthy < evaluated {
            seq![pick(lang, "Ensure kube-apiserver, controller-manager, scheduler, and etcd pods are running without restarts."@, "确保 kube-apiserver、controller-manager、scheduler 和 etcd Pod 正在运行且没有重启。"@)]
        } else {
            Seq::<Seq<char>>::empty()
        },
{
    let status = if evaluated == 0 {
        CheckStatus::Pass
    } else {
        grade_ratio(healthy, evaluated, 999, 800)
    };
    let details = control_plane_pod_details(lang, healthy, evaluated);
    let rec = if evaluated > 0 && healthy < evaluated {
        Some(("Ensure kube-apiserver, controller-manager, scheduler, and etcd pods are running without restarts.", "确保 kube-apiserver、controller-manager、scheduler 和 etcd Pod 正在运行且没有重启。"))
    } else {
        None
    };
    make_verdict(lang, "Control Plane Pods", "Validates that key control-plane pods in kube-system are running", "验证 kube-system 中的关键控制平面 Pod 是否正在运行",
        status, details, rec)
}

} // verus!
