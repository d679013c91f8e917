//! Resource usage inspection: requests and limits of the containers, the
//! consistency of limits with requests, and resource quotas of namespaces.

use vstd::prelude::*;

use crate::inspections::common::{
    issue_view, issue_views, join_ref, make_issue, or_default, push_issue, str_or, IssueSpec,
};
use crate::inspections::pods::{pod_name, pod_ns, pod_ref};
use crate::inspections::scoring_excluded;
use crate::inspections::is_scoring_excluded_namespace;
use crate::inspections::types::{Issue, IssueSeverity};
use crate::utils::lang::{fill, lang_fmt1, lang_fmt2, lang_fmt3, pick, Lang};
use crate::utils::resource_quantity::{parse_memory_spec, parse_memory_str};
use crate::utils::text::{owned, str_eq};

verus! {

/// What the inspection reads of a `requests` or `limits` map: how many
/// entries it has, the CPU entry in millicores when present and parseable,
/// and the memory entry as written.
#[derive(Debug, Clone)]
pub struct QuantitySet {
    pub entries: usize,
    pub cpu_millis: Option<i64>,
    pub memory: Option<String>,
}

/// Resource requirements of a container.
#[derive(Debug, Clone)]
pub struct RequirementsInfo {
    pub requests: Option<QuantitySet>,
    pub limits: Option<QuantitySet>,
}

/// A container of a pod spec.
#[derive(Debug, Clone)]
pub struct ContainerResourceInfo {
    pub name: String,
    pub resources: Option<RequirementsInfo>,
}

/// A pod: its name, namespace and, when it has a spec, its containers.
#[derive(Debug, Clone)]
pub struct PodResourceInfo {
    pub name: Option<String>,
    pub namespace: Option<String>,
    pub containers: Option<Vec<ContainerResourceInfo>>,
}

/// Outcome of the container scan: counts over the scored containers and
/// the issues of all containers.
#[derive(Debug, Clone)]
pub struct ResourceScan {
    pub total_containers: usize,
    pub containers_with_requests: usize,
    pub containers_with_limits: usize,
    pub containers_with_both: usize,
    pub issues: Vec<Issue>,
}

pub open spec fn set_nonempty(o: Option<QuantitySet>) -> bool {
    o is Some && o->0.entries > 0
}

pub open spec fn has_requests(c: ContainerResourceInfo) -> bool {
    c.resources is Some && set_nonempty(c.resources->0.requests)
}

pub open spec fn has_limits(c: ContainerResourceInfo) -> bool {
    c.resources is Some && set_nonempty(c.resources->0.limits)
}

pub open spec fn pr_ns(p: PodResourceInfo) -> Seq<char> {
    or_default(p.namespace, "default"@)
}

pub open spec fn pr_name(p: PodResourceInfo) -> Seq<char> {
    or_default(p.name, "unknown"@)
}

pub open spec fn pr_ref(p: PodResourceInfo) -> Seq<char> {
    pr_ns(p) + "/"@ + pr_name(p)
}

pub open spec fn limit_issue(
    lang: Lang,
    pod: Seq<char>,
    container: Seq<char>,
    en: Seq<char>,
    zh: Seq<char>,
    rec_en: Seq<char>,
    rec_zh: Seq<char>,
    rule: Seq<char>,
) -> IssueSpec {
    (
        IssueSeverity::Critical,
        "Container"@,
        fill(pick(lang, en, zh), seq![container, pod]),
        Some(pod),
        pick(lang, rec_en, rec_zh),
        Some(rule),
    )
}

/// Issues of limits below requests, CPU (204) then memory (205), when both
/// maps exist and both values are known.
pub open spec fn validation_issues(lang: Lang, pod: Seq<char>, container: Seq<char>, r: RequirementsInfo) -> Seq<IssueSpec> {
    match (r.requests, r.limits) {
        (Some(req), Some(lim)) => {
            (if req.cpu_millis is Some && lim.cpu_millis is Some && lim.cpu_millis->0
                < req.cpu_millis->0 {
                seq![
                    limit_issue(
                        lang,
                        pod,
                        container,
                        "Container {} in pod {} has CPU limit lower than request"@,
                        "Pod {} 中的容器 {} 的 CPU 限制低于请求"@,
                        "Ensure CPU limits are higher than or equal to requests"@,
                        "确保 CPU 限制不低于请求"@,
                        "204"@,
                    ),
                ]
            } else {
                seq![]
            }) + (if req.memory is Some && lim.memory is Some && parse_memory_spec(
                req.memory->0@,
            ) is Some && parse_memory_spec(lim.memory->0@) is Some && parse_memory_spec(
                lim.memory->0@,
            )->0 < parse_memory_spec(req.memory->0@)->0 {
                seq![
                    limit_issue(
                        lang,
                        pod,
                        container,
                        "Container {} in pod {} has memory limit lower than request"@,
                        "Pod {} 中的容器 {} 的内存限制低于请求"@,
                        "Ensure memory limits are higher than or equal to requests"@,
                        "确保内存限制不低于请求"@,
                        "205"@,
                    ),
                ]
            } else {
                seq![]
            })
        },
        _ => seq![],
    }
}

/// Issues of one container: the limit checks, then no requests (201), then
/// no limits (202).
pub open spec fn container_issues(lang: Lang, p: PodResourceInfo, c: ContainerResourceInfo) -> Seq<IssueSpec> {
    (match c.resources {
        Some(r) => validation_issues(lang, pr_ref(p), c.name@, r),
        None => seq![],
    }) + (if !has_requests(c) {
        seq![
            (
                IssueSeverity::Warning,
                "Container"@,
                fill(
                    pick(
                        lang,
                        "Container {} in pod {}/{} has no resource requests"@,
                        "Pod {}/{} 中的容器 {} 未设置资源请求"@,
                    ),
                    seq![c.name@, pr_ns(p), pr_name(p)],
                ),
                Some(pr_ref(p)),
                pick(
                    lang,
                    "Set CPU and memory requests for better scheduling"@,
                    "设置 CPU 和内存请求以改善调度"@,
                ),
                Some("201"@),
            ),
        ]
    } else {
        seq![]
    }) + (if !has_limits(c) {
        seq![
            (
                IssueSeverity::Warning,
                "Container"@,
                fill(
                    pick(
                        lang,
                        "Container {} in pod {}/{} has no resource limits"@,
                        "Pod {}/{} 中的容器 {} 未设置资源限制"@,
                    ),
                    seq![c.name@, pr_ns(p), pr_name(p)],
                ),
                Some(pr_ref(p)),
                pick(
                    lang,
                    "Set CPU and memory limits to prevent resource exhaustion"@,
                    "设置 CPU 和内存限制以防止资源耗尽"@,
                ),
                Some("202"@),
            ),
        ]
    } else {
        seq![]
    })
}

pub open spec fn containers_issues(lang: Lang, p: PodResourceInfo, cs: Seq<ContainerResourceInfo>) -> Seq<IssueSpec>
    decreases cs.len(),
{
    if cs.len() == 0 {
        seq![]
    } else {
        containers_issues(lang, p, cs.drop_last()) + container_issues(lang, p, cs.last())
    }
}

pub open spec fn pod_containers(p: PodResourceInfo) -> Seq<ContainerResourceInfo> {
    match p.containers {
        Some(v) => v@,
        None => seq![],
    }
}

pub open spec fn pods_resource_issues(lang: Lang, ps: Seq<PodResourceInfo>) -> Seq<IssueSpec>
    decreases ps.len(),
{
    if ps.len() == 0 {
        seq![]
    } else {
        pods_resource_issues(lang, ps.drop_last()) + containers_issues(
            lang,
            ps.last(),
            pod_containers(ps.last()),
        )
    }
}

/// Which containers a count is over: 0 all, 1 with requests, 2 with
/// limits, 3 with both.
pub open spec fn counted_by(c: ContainerResourceInfo, which: int) -> bool {
    if which == 0 {
        true
    } else if which == 1 {
        has_requests(c)
    } else if which == 2 {
        has_limits(c)
    } else {
        has_requests(c) && has_limits(c)
    }
}

pub open spec fn count_containers(cs: Seq<ContainerResourceInfo>, which: int) -> nat
    decreases cs.len(),
{
    if cs.len() == 0 {
        0
    } else {
        count_containers(cs.drop_last(), which) + if counted_by(cs.last(), which) {
            1nat
        } else {
            0nat
        }
    }
}

/// Number of containers of the scored pods counted by `which`.
pub open spec fn count_scored_containers(ps: Seq<PodResourceInfo>, which: int) -> nat
    decreases ps.len(),
{
    if ps.len() == 0 {
        0
    } else {
        count_scored_containers(ps.drop_last(), which) + if scoring_excluded(pr_ns(ps.last())) {
            0nat
        } else {
            count_containers(pod_containers(ps.last()), which)
        }
    }
}

/// A count as a `usize`, held at `usize::MAX` beyond it.
pub open spec fn capped(n: nat) -> usize {
    if n > usize::MAX {
        usize::MAX
    } else {
        n as usize
    }
}

/// Everything the container scan states of its input.
pub open spec fn resource_scan_matches(lang: Lang, ps: Seq<PodResourceInfo>, s: ResourceScan) -> bool {
    &&& s.total_containers == capped(count_scored_containers(ps, 0))
    &&& s.containers_with_requests == capped(count_scored_containers(ps, 1))
    &&& s.containers_with_limits == capped(count_scored_containers(ps, 2))
    &&& s.containers_with_both == capped(count_scored_containers(ps, 3))
    &&& issue_views(s.issues@) == pods_resource_issues(lang, ps)
}

// ---------------------------------------------------------------------------
// Namespace quotas
// ---------------------------------------------------------------------------

/// Namespaces that are expected to carry a resource quota.
pub open spec fn quota_expected(ns: Seq<char>) -> bool {
    ns != "kube-system"@ && ns != "kube-public"@ && ns != "kube-node-lease"@
}

pub open spec fn quota_issue(lang: Lang, ns: Seq<char>) -> IssueSpec {
    (
        IssueSeverity::Warning,
        "Resource Management"@,
        fill(pick(lang, "Namespace {} has no resource quota"@, "命名空间 {} 未配置资源配额"@), seq![ns]),
        Some(ns),
        pick(
            lang,
            "Configure resource quotas to prevent resource exhaustion"@,
            "配置资源配额以防止资源耗尽"@,
        ),
        Some("203"@),
    )
}

/// Quota issues of the namespaces, where `found[i]` says whether namespace
/// `i` was found to have a quota.
pub open spec fn quota_issues(lang: Lang, nss: Seq<Seq<char>>, found: Seq<bool>) -> Seq<IssueSpec>
    decreases nss.len(),
{
    if nss.len() == 0 {
        seq![]
    } else {
        quota_issues(lang, nss.drop_last(), found) + if quota_expected(nss.last()) && !found[nss.len()
            - 1] {
            seq![quota_issue(lang, nss.last())]
        } else {
            seq![]
        }
    }
}

// ---------------------------------------------------------------------------
// Scanning
// ---------------------------------------------------------------------------

fn mem_bytes(o: &Option<String>) -> (r: Option<i64>)
    ensures
        r == (match *o {
            Some(m) => parse_memory_spec(m@),
            None => None,
        }),
{
    match o {
        Some(m) => parse_memory_str(m.as_str()),
        None => None,
    }
}

fn push_limit_issue(
    lang: Lang,
    pod: &str,
    container: &str,
    en: &str,
    zh: &str,
    rec_en: &str,
    rec_zh: &str,
    rule: &str,
    out: &mut Vec<Issue>,
)
    ensures
        issue_views(final(out)@) == issue_views(old(out)@).push(
            limit_issue(lang, pod@, container@, en@, zh@, rec_en@, rec_zh@, rule@),
        ),
{
    let issue = make_issue(
        IssueSeverity::Critical,
        "Container",
        lang_fmt2(lang, en, zh, container, pod),
        owned(pod),
        lang.t(rec_en, rec_zh),
        rule,
    );
    push_issue(out, issue);
}

/// Issues of limits below requests for one container.
pub fn validate_resource_configuration(
    lang: Lang,
    pod: &str,
    container: &str,
    r: &RequirementsInfo,
    out: &mut Vec<Issue>,
)
    ensures
        issue_views(final(out)@) == issue_views(old(out)@) + validation_issues(
            lang,
            pod@,
            container@,
            *r,
        ),
{
    let ghost i0 = issue_views(out@);
    match (&r.requests, &r.limits) {
        (Some(req), Some(lim)) => {
            if let (Some(rc), Some(lc)) = (req.cpu_millis, lim.cpu_millis) {
                if lc < rc {
                    push_limit_issue(
                        lang,
                        pod,
                        container,
                        "Container {} in pod {} has CPU limit lower than request",
                        "Pod {} 中的容器 {} 的 CPU 限制低于请求",
                        "Ensure CPU limits are higher than or equal to requests",
                        "确保 CPU 限制不低于请求",
                        "204",
                        out,
                    );
                }
            }
            let ghost i1 = issue_views(out@);
            let rb = mem_bytes(&req.memory);
            let lb = mem_bytes(&lim.memory);
            if let (Some(rm), Some(lm)) = (rb, lb) {
                if req.memory.is_some() && lim.memory.is_some() && lm < rm {
                    push_limit_issue(
                        lang,
                        pod,
                        container,
                        "Container {} in pod {} has memory limit lower than request",
                        "Pod {} 中的容器 {} 的内存限制低于请求",
                        "Ensure memory limits are higher than or equal to requests",
                        "确保内存限制不低于请求",
                        "205",
                        out,
                    );
                }
            }
            proof {
                assert(issue_views(out@) =~= i0 + validation_issues(lang, pod@, container@, *r));
            }
        },
        _ => {
            proof {
                assert(issue_views(out@) =~= i0 + seq![]);
            }
        },
    }
}

fn set_has_entries(o: &Option<QuantitySet>) -> (r: bool)
    ensures
        r == set_nonempty(*o),
{
    match o {
        Some(q) => q.entries > 0,
        None => false,
    }
}

fn scan_container(lang: Lang, p: &PodResourceInfo, c: &ContainerResourceInfo, ns: &str, name: &str, out: &mut Vec<Issue>) -> (r: (bool, bool))
    requires
        ns@ == pr_ns(*p),
        name@ == pr_name(*p),
    ensures
        r.0 == has_requests(*c),
        r.1 == has_limits(*c),
        issue_views(final(out)@) == issue_views(old(out)@) + container_issues(lang, *p, *c),
{
    let ghost i0 = issue_views(out@);
    let (req, lim) = match &c.resources {
        Some(res) => (set_has_entries(&res.requests), set_has_entries(&res.limits)),
        None => (false, false),
    };
    let pref = join_ref(ns, name);
    if let Some(res) = &c.resources {
        validate_resource_configuration(lang, pref.as_str(), c.name.as_str(), res, out);
    }
    let ghost i1 = issue_views(out@);
    if !req {
        let issue = make_issue(
            IssueSeverity::Warning,
            "Container",
            lang_fmt3(
                lang,
                "Container {} in pod {}/{} has no resource requests",
                "Pod {}/{} 中的容器 {} 未设置资源请求",
                c.name.as_str(),
                ns,
                name,
            ),
            join_ref(ns, name),
            lang.t("Set CPU and memory requests for better scheduling", "设置 CPU 和内存请求以改善调度"),
            "201",
        );
        push_issue(out, issue);
    }
    let ghost i2 = issue_views(out@);
    if !lim {
        let issue = make_issue(
            IssueSeverity::Warning,
            "Container",
            lang_fmt3(
                lang,
                "Container {} in pod {}/{} has no resource limits",
                "Pod {}/{} 中的容器 {} 未设置资源限制",
                c.name.as_str(),
                ns,
                name,
            ),
            join_ref(ns, name),
            lang.t(
                "Set CPU and memory limits to prevent resource exhaustion",
                "设置 CPU 和内存限制以防止资源耗尽",
            ),
            "202",
        );
        push_issue(out, issue);
    }
    proof {
        assert(issue_views(out@) =~= i0 + container_issues(lang, *p, *c));
    }
    (req, lim)
}

fn bump(n: usize, add: bool) -> (r: usize)
    ensures
        r == if add {
            if n == usize::MAX {
                n
            } else {
                (n + 1) as usize
            }
        } else {
            n
        },
{
    if add {
        n.saturating_add(1)
    } else {
        n
    }
}

/// Scans the containers of the pods: counts over the containers of scored
/// pods (held at `usize::MAX`) and the issues of every container.
pub fn scan_resources(lang: Lang, pods: &Vec<PodResourceInfo>) -> (r: ResourceScan)
    ensures
        resource_scan_matches(lang, pods@, r),
{
    let mut issues: Vec<Issue> = Vec::new();
    let mut total: usize = 0;
    let mut with_req: usize = 0;
    let mut with_lim: usize = 0;
    let mut with_both: usize = 0;
    let mut i: usize = 0;
    proof {
        assert(issue_views(issues@) =~= pods_resource_issues(lang, pods@.take(0)));
    }
    while i < pods.len()
        invariant
            i <= pods.len(),
            total == capped(count_scored_containers(pods@.take(i as int), 0)),
            with_req == capped(count_scored_containers(pods@.take(i as int), 1)),
            with_lim == capped(count_scored_containers(pods@.take(i as int), 2)),
            with_both == capped(count_scored_containers(pods@.take(i as int), 3)),
            issue_views(issues@) == pods_resource_issues(lang, pods@.take(i as int)),
        decreases pods.len() - i,
    {
        proof {
            assert(pods@.take(i as int + 1).drop_last() =~= pods@.take(i as int));
        }
        let p = &pods[i];
        let ns = str_or(&p.namespace, "default");
        let name = str_or(&p.name, "unknown");
        let excluded = is_scoring_excluded_namespace(ns);
        let ghost before = issue_views(issues@);
        let ghost base0 = count_scored_containers(pods@.take(i as int), 0);
        let ghost base1 = count_scored_containers(pods@.take(i as int), 1);
        let ghost base2 = count_scored_containers(pods@.take(i as int), 2);
        let ghost base3 = count_scored_containers(pods@.take(i as int), 3);
        if let Some(cs) = &p.containers {
            let mut k: usize = 0;
            proof {
                assert(issue_views(issues@) =~= before + containers_issues(lang, *p, cs@.take(0)));
            }
            while k < cs.len()
                invariant
                    k <= cs.len(),
                    ns@ == pr_ns(*p),
                    name@ == pr_name(*p),
                    excluded == scoring_excluded(pr_ns(*p)),
                    total == capped(base0 + if excluded { 0nat } else { count_containers(cs@.take(k as int), 0) }),
                    with_req == capped(base1 + if excluded { 0nat } else { count_containers(cs@.take(k as int), 1) }),
                    with_lim == capped(base2 + if excluded { 0nat } else { count_containers(cs@.take(k as int), 2) }),
                    with_both == capped(base3 + if excluded { 0nat } else { count_containers(cs@.take(k as int), 3) }),
                    issue_views(issues@) == before + containers_issues(lang, *p, cs@.take(k as int)),
                decreases cs.len() - k,
            {
                proof {
                    assert(cs@.take(k as int + 1).drop_last() =~= cs@.take(k as int));
                }
                let (rq, lm) = scan_container(lang, p, &cs[k], ns, name, &mut issues);
                if !excluded {
                    total = bump(total, true);
                    with_req = bump(with_req, rq);
                    with_lim = bump(with_lim, lm);
                    with_both = bump(with_both, rq && lm);
                }
                proof {
                    assert(issue_views(issues@) =~= before + containers_issues(
                        lang,
                        *p,
                        cs@.take(k as int + 1),
                    ));
                }
                k = k + 1;
            }
            proof {
                assert(cs@.take(cs.len() as int) =~= cs@);
            }
        } else {
            proof {
                assert(issue_views(issues@) =~= before + seq![]);
            }
        }
        i = i + 1;
    }
    proof {
        assert(pods@.take(pods.len() as int) =~= pods@);
    }
    ResourceScan {
        total_containers: total,
        containers_with_requests: with_req,
        containers_with_limits: with_lim,
        containers_with_both: with_both,
        issues,
    }
}

/// Quota issues of the namespaces, where `found[i]` says whether namespace
/// `i` was found to have a quota.
pub fn quota_issues_from(lang: Lang, namespaces: &Vec<String>, found: &Vec<bool>) -> (r: Vec<Issue>)
    requires
        found.len() == namespaces.len(),
    ensures
        issue_views(r@) == quota_issues(lang, namespaces@.map_values(|s: String| s@), found@),
{
    let ghost nv = namespaces@.map_values(|s: String| s@);
    let mut out: Vec<Issue> = Vec::new();
    let mut i: usize = 0;
    proof {
        assert(issue_views(out@) =~= quota_issues(lang, nv.take(0), found@));
    }
    while i < namespaces.len()
        invariant
            i <= namespaces.len(),
            found.len() == namespaces.len(),
            nv == namespaces@.map_values(|s: String| s@),
            issue_views(out@) == quota_issues(lang, nv.take(i as int), found@),
        decreases namespaces.len() - i,
    {
        proof {
            assert(nv.take(i as int + 1).drop_last() =~= nv.take(i as int));
            assert(nv.take(i as int + 1).last() == namespaces@[i as int]@);
        }
        let ns = namespaces[i].as_str();
        if !str_eq(ns, "kube-system") && !str_eq(ns, "kube-public") && !str_eq(ns, "kube-node-lease")
            && !found[i] {
            let issue = make_issue(
                IssueSeverity::Warning,
                "Resource Management",
                lang_fmt1(lang, "Namespace {} has no resource quota", "命名空间 {} 未配置资源配额", ns),
                owned(ns),
                lang.t(
                    "Configure resource quotas to prevent resource exhaustion",
                    "配置资源配额以防止资源耗尽",
                ),
                "203",
            );
            push_issue(&mut out, issue);
        }
        proof {
            assert(issue_views(out@) =~= quota_issues(lang, nv.take(i as int + 1), found@));
        }
        i = i + 1;
    }
    proof {
        assert(nv.take(namespaces.len() as int) =~= nv);
    }
    out
}

/// `rand::random::<bool>()`: a random boolean.
#[verifier::external_body]
fn random_bool() -> bool {
    rand::random::<bool>()
}

/// Quota issues of the namespaces. Whether a namespace is taken to have a
/// quota is drawn at random for each namespace expected to have one; the
/// issues are those of some such draw.
pub fn namespace_quota_issues(lang: Lang, namespaces: &Vec<String>) -> (r: Vec<Issue>)
    ensures
        exists|found: Seq<bool>|
            found.len() == namespaces.len() && issue_views(r@) == quota_issues(
                lang,
                namespaces@.map_values(|s: String| s@),
                found,
            ),
{
    let mut found: Vec<bool> = Vec::new();
    let mut i: usize = 0;
    while i < namespaces.len()
        invariant
            i <= namespaces.len(),
            found.len() == i,
        decreases namespaces.len() - i,
    {
        let ns = namespaces[i].as_str();
        if !str_eq(ns, "kube-system") && !str_eq(ns, "kube-public") && !str_eq(ns, "kube-node-lease") {
            found.push(random_bool());
        } else {
            found.push(true);
        }
        i = i + 1;
    }
    let r = quota_issues_from(lang, namespaces, &found);
    proof {
        assert(found@.len() == namespaces.len());
    }
    r
}


/// Whether both requests and limits give a CPU amount, and the limit is
/// strictly below the request.
pub open spec fn cpu_limit_below_request(r: RequirementsInfo) -> bool {
    &&& r.requests is Some
    &&& r.limits is Some
    &&& r.requests->0.cpu_millis is Some
    &&& r.limits->0.cpu_millis is Some
    &&& r.limits->0.cpu_millis->0 < r.requests->0.cpu_millis->0
}

/// A CPU limit issue (204) comes exactly when the CPU limit is strictly
/// below the CPU request; a limit equal to or above the request gives
/// none.
pub proof fn law_cpu_limit_issue_only_below_request(
    lang: Lang,
    pod: Seq<char>,
    container: Seq<char>,
    r: RequirementsInfo,
)
    ensures
        (exists|k: int|
            0 <= k < validation_issues(lang, pod, container, r).len() && (#[trigger] validation_issues(
                lang,
                pod,
                container,
                r,
            )[k]).5 == Some("204"@)) <==> cpu_limit_below_request(r),
{
    reveal_strlit("204");
    reveal_strlit("205");
    assert("204"@ != "205"@) by {
        assert("204"@[2] != "205"@[2]);
    }
    let v = validation_issues(lang, pod, container, r);
    if cpu_limit_below_request(r) {
        assert(v[0].5 == Some("204"@));
    }
}

} // verus!
