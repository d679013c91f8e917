//! Network inspection: configuration of the services, coverage of network
//! policies, and the cluster DNS deployment.

use vstd::prelude::*;

use crate::inspections::common::{
    issue_view, issue_views, join_ref, make_issue, or_default, push_issue, str_or, IssueSpec,
};
use crate::inspections::types::{Issue, IssueSeverity};
use crate::utils::lang::{fill, lang_fmt2, lang_fmt3, pick, Lang};
use crate::utils::text::{contains, contains_str, chars_of, dec_int, i64_to_string, owned, push_str, str_eq};

verus! {

/// The load balancer status of a service: how many ingress entries it has,
/// when the list is present.
#[derive(Debug, Clone)]
pub struct LoadBalancerInfo {
    pub ingress: Option<usize>,
}

/// What the inspection reads of a service spec and status.
#[derive(Debug, Clone)]
pub struct ServiceSpecInfo {
    pub cluster_ip: Option<String>,
    pub type_: Option<String>,
    /// `nodePort` of each listed port.
    pub node_ports: Vec<Option<i32>>,
    /// Number of selector entries, when a selector is present.
    pub selector_entries: Option<usize>,
    /// `status.loadBalancer`, when the service has a status with one.
    pub load_balancer: Option<LoadBalancerInfo>,
}

/// A service.
#[derive(Debug, Clone)]
pub struct ServiceInfo {
    pub name: Option<String>,
    pub namespace: Option<String>,
    pub spec: Option<ServiceSpecInfo>,
}

/// A deployment of `kube-system`: its name and, when it has a status, the
/// ready and desired replica counts.
#[derive(Debug, Clone)]
pub struct DeploymentReplicas {
    pub name: Option<String>,
    pub has_status: bool,
    pub ready_replicas: Option<i32>,
    pub replicas: Option<i32>,
}

/// Outcome of the service scan.
#[derive(Debug, Clone)]
pub struct ServiceScan {
    pub total_services: usize,
    pub services_with_endpoints: usize,
    pub headless_services: usize,
    pub issues: Vec<Issue>,
}

pub open spec fn svc_ns(s: ServiceInfo) -> Seq<char> {
    or_default(s.namespace, "default"@)
}

pub open spec fn svc_name(s: ServiceInfo) -> Seq<char> {
    or_default(s.name, "unknown"@)
}

pub open spec fn svc_ref(s: ServiceInfo) -> Seq<char> {
    svc_ns(s) + "/"@ + svc_name(s)
}

pub open spec fn opt_is(o: Option<String>, v: Seq<char>) -> bool {
    o is Some && o->0@ == v
}

pub open spec fn is_headless(sp: ServiceSpecInfo) -> bool {
    opt_is(sp.cluster_ip, "None"@)
}

pub open spec fn has_selector(sp: ServiceSpecInfo) -> bool {
    sp.selector_entries is Some && sp.selector_entries->0 > 0
}

/// A node port outside 30000..=32767.
pub open spec fn node_port_out_of_range(np: i32) -> bool {
    !(30000 <= np && np <= 32767)
}

pub open spec fn node_port_issues(lang: Lang, s: ServiceInfo, ports: Seq<Option<i32>>) -> Seq<IssueSpec>
    decreases ports.len(),
{
    if ports.len() == 0 {
        seq![]
    } else {
        node_port_issues(lang, s, ports.drop_last()) + match ports.last() {
            Some(np) => if node_port_out_of_range(np) {
                seq![
                    (
                        IssueSeverity::Info,
                        "Service"@,
                        fill(
                            pick(
                                lang,
                                "Service {}/{} uses NodePort {} outside recommended range"@,
                                "服务 {}/{} 使用的 NodePort {} 超出推荐范围"@,
                            ),
                            seq![svc_ns(s), svc_name(s), dec_int(np as int)],
                        ),
                        Some(svc_ref(s)),
                        pick(lang, "Use NodePort in range 30000-32767"@, "使用 30000-32767 范围内的 NodePort"@),
                        Some("302"@),
                    ),
                ]
            } else {
                seq![]
            },
            None => seq![],
        }
    }
}

/// Issues of the service type: a load balancer without ingress (301),
/// node ports outside the recommended range (302).
pub open spec fn type_issues(lang: Lang, s: ServiceInfo, sp: ServiceSpecInfo) -> Seq<IssueSpec> {
    if opt_is(sp.type_, "LoadBalancer"@) {
        match sp.load_balancer {
            Some(lb) => if lb.ingress is None || lb.ingress->0 == 0 {
                seq![
                    (
                        IssueSeverity::Warning,
                        "Service"@,
                        fill(
                            pick(
                                lang,
                                "LoadBalancer service {}/{} has no external IP assigned"@,
                                "LoadBalancer 服务 {}/{} 未分配外部 IP"@,
                            ),
                            seq![svc_ns(s), svc_name(s)],
                        ),
                        Some(svc_ref(s)),
                        pick(
                            lang,
                            "Check LoadBalancer configuration and cloud provider settings"@,
                            "检查 LoadBalancer 配置和云提供商设置"@,
                        ),
                        Some("301"@),
                    ),
                ]
            } else {
                seq![]
            },
            None => seq![],
        }
    } else if opt_is(sp.type_, "NodePort"@) {
        node_port_issues(lang, s, sp.node_ports@)
    } else {
        seq![]
    }
}

/// A service without selector that is not headless (and is not the API
/// server's `default/kubernetes`) may have no endpoints (303).
pub open spec fn selector_issues(lang: Lang, s: ServiceInfo, sp: ServiceSpecInfo) -> Seq<IssueSpec> {
    if !has_selector(sp) && !is_headless(sp) && !(svc_ns(s) == "default"@ && svc_name(s)
        == "kubernetes"@) {
        seq![
            (
                IssueSeverity::Warning,
                "Service"@,
                fill(
                    pick(
                        lang,
                        "Service {}/{} has no selector and may not have endpoints"@,
                        "服务 {}/{} 没有选择器，可能没有端点"@,
                    ),
                    seq![svc_ns(s), svc_name(s)],
                ),
                Some(svc_ref(s)),
                pick(
                    lang,
                    "Ensure service has proper selectors or manual endpoints"@,
                    "确保服务具有正确的选择器或手动端点"@,
                ),
                Some("303"@),
            ),
        ]
    } else {
        seq![]
    }
}

pub open spec fn service_issues(lang: Lang, s: ServiceInfo) -> Seq<IssueSpec> {
    match s.spec {
        Some(sp) => type_issues(lang, s, sp) + selector_issues(lang, s, sp),
        None => seq![],
    }
}

pub open spec fn services_issues(lang: Lang, ss: Seq<ServiceInfo>) -> Seq<IssueSpec>
    decreases ss.len(),
{
    if ss.len() == 0 {
        seq![]
    } else {
        services_issues(lang, ss.drop_last()) + service_issues(lang, ss.last())
    }
}

/// Number of services whose spec satisfies the selector (`which` 0) or
/// headless (`which` 1) test.
pub open spec fn count_services(ss: Seq<ServiceInfo>, which: int) -> nat
    decreases ss.len(),
{
    if ss.len() == 0 {
        0
    } else {
        count_services(ss.drop_last(), which) + if ss.last().spec is Some && (if which == 0 {
            has_selector(ss.last().spec->0)
        } else {
            is_headless(ss.last().spec->0)
        }) {
            1nat
        } else {
            0nat
        }
    }
}

pub open spec fn service_scan_matches(lang: Lang, ss: Seq<ServiceInfo>, r: ServiceScan) -> bool {
    &&& r.total_services == ss.len()
    &&& r.services_with_endpoints == count_services(ss, 0)
    &&& r.headless_services == count_services(ss, 1)
    &&& issue_views(r.issues@) == services_issues(lang, ss)
}

// ---------------------------------------------------------------------------
// DNS
// ---------------------------------------------------------------------------

pub open spec fn is_dns_name(n: Seq<char>) -> bool {
    contains(n, "coredns"@) || contains(n, "kube-dns"@)
}

pub open spec fn is_dns_deployment(d: DeploymentReplicas) -> bool {
    d.name is Some && is_dns_name(d.name->0@)
}

/// The first DNS deployment.
pub open spec fn first_dns(ds: Seq<DeploymentReplicas>) -> Option<DeploymentReplicas>
    decreases ds.len(),
{
    if ds.len() == 0 {
        None
    } else if is_dns_deployment(ds[0]) {
        Some(ds[0])
    } else {
        first_dns(ds.drop_first())
    }
}

pub open spec fn opt_i32(o: Option<i32>) -> int {
    match o {
        Some(v) => v as int,
        None => 0,
    }
}

/// Outcome of the DNS check: whether DNS is healthy, and the issue found.
pub open spec fn dns_check_spec(lang: Lang, ds: Seq<DeploymentReplicas>) -> (bool, Seq<IssueSpec>) {
    match first_dns(ds) {
        Some(d) => if d.has_status && opt_i32(d.ready_replicas) < opt_i32(d.replicas) {
            (
                false,
                seq![
                    (
                        IssueSeverity::Critical,
                        "Deployment"@,
                        fill(
                            pick(
                                lang,
                                "DNS deployment {} has {}/{} replicas ready"@,
                                "DNS 部署 {} 有 {}/{} 个副本就绪"@,
                            ),
                            seq![
                                d.name->0@,
                                dec_int(opt_i32(d.ready_replicas)),
                                dec_int(opt_i32(d.replicas)),
                            ],
                        ),
                        Some("kube-system/"@ + d.name->0@),
                        pick(
                            lang,
                            "Check DNS deployment logs and resource availability"@,
                            "检查 DNS 部署日志和资源可用性"@,
                        ),
                        Some("304"@),
                    ),
                ],
            )
        } else {
            (true, seq![])
        },
        None => (
            false,
            seq![
                (
                    IssueSeverity::Critical,
                    "Namespace"@,
                    pick(lang, "No DNS service deployment found"@, "未找到 DNS 服务部署"@),
                    Some("kube-system"@),
                    pick(
                        lang,
                        "Deploy CoreDNS or kube-dns for cluster DNS resolution"@,
                        "部署 CoreDNS 或 kube-dns 以提供集群 DNS 解析"@,
                    ),
                    Some("305"@),
                ),
            ],
        ),
    }
}

// ---------------------------------------------------------------------------
// Network policies
// ---------------------------------------------------------------------------

/// The namespaces named by the policies (those without one left out).
pub open spec fn policy_namespace_set(ps: Seq<Option<String>>) -> Set<Seq<char>> {
    Set::new(|n: Seq<char>| exists|i: int| 0 <= i < ps.len() && #[trigger] ns_at(ps, i) == Some(n))
}

/// The namespace of policy `i`, as characters.
pub open spec fn ns_at(ps: Seq<Option<String>>, i: int) -> Option<Seq<char>> {
    match ps[i] {
        Some(s) => Some(s@),
        None => None,
    }
}

// ---------------------------------------------------------------------------
// Scanning
// ---------------------------------------------------------------------------

fn opt_eq(o: &Option<String>, v: &str) -> (r: bool)
    ensures
        r == opt_is(*o, v@),
{
    match o {
        Some(s) => str_eq(s.as_str(), v),
        None => false,
    }
}

fn scan_service(lang: Lang, s: &ServiceInfo, out: &mut Vec<Issue>) -> (r: (bool, bool))
    ensures
        issue_views(final(out)@) == issue_views(old(out)@) + service_issues(lang, *s),
        r.0 == (s.spec is Some && has_selector(s.spec->0)),
        r.1 == (s.spec is Some && is_headless(s.spec->0)),
{
    let ghost i0 = issue_views(out@);
    let sp = match &s.spec {
        Some(sp) => sp,
        None => {
            proof {
                assert(issue_views(out@) =~= i0 + seq![]);
            }
            return (false, false);
        },
    };
    let ns = str_or(&s.namespace, "default");
    let name = str_or(&s.name, "unknown");
    let headless = opt_eq(&sp.cluster_ip, "None");
    proof {
        reveal_strlit("LoadBalancer");
        reveal_strlit("NodePort");
    }
    if opt_eq(&sp.type_, "LoadBalancer") {
        if let Some(lb) = &sp.load_balancer {
            let empty = match lb.ingress {
                Some(n) => n == 0,
                None => true,
            };
            if empty {
                let issue = make_issue(
                    IssueSeverity::Warning,
                    "Service",
                    lang_fmt2(
                        lang,
                        "LoadBalancer service {}/{} has no external IP assigned",
                        "LoadBalancer 服务 {}/{} 未分配外部 IP",
                        ns,
                        name,
                    ),
                    join_ref(ns, name),
                    lang.t(
                        "Check LoadBalancer configuration and cloud provider settings",
                        "检查 LoadBalancer 配置和云提供商设置",
                    ),
                    "301",
                );
                push_issue(out, issue);
            }
        }
        proof {
            assert(issue_views(out@) =~= i0 + type_issues(lang, *s, *sp));
        }
    } else if opt_eq(&sp.type_, "NodePort") {
        let ports = &sp.node_ports;
        let mut k: usize = 0;
        proof {
            assert(issue_views(out@) =~= i0 + node_port_issues(lang, *s, ports@.take(0)));
        }
        while k < ports.len()
            invariant
                k <= ports.len(),
                ns@ == svc_ns(*s),
                name@ == svc_name(*s),
                issue_views(out@) == i0 + node_port_issues(lang, *s, ports@.take(k as int)),
            decreases ports.len() - k,
        {
            proof {
                assert(ports@.take(k as int + 1).drop_last() =~= ports@.take(k as int));
            }
            if let Some(np) = ports[k] {
                if !(30000 <= np && np <= 32767) {
                    let port = i64_to_string(np as i64);
                    let issue = make_issue(
                        IssueSeverity::Info,
                        "Service",
                        lang_fmt3(
                            lang,
                            "Service {}/{} uses NodePort {} outside recommended range",
                            "服务 {}/{} 使用的 NodePort {} 超出推荐范围",
                            ns,
                            name,
                            port.as_str(),
                        ),
                        join_ref(ns, name),
                        lang.t("Use NodePort in range 30000-32767", "使用 30000-32767 范围内的 NodePort"),
                        "302",
                    );
                    push_issue(out, issue);
                }
            }
            proof {
                assert(issue_views(out@) =~= i0 + node_port_issues(lang, *s, ports@.take(k as int + 1)));
            }
            k = k + 1;
        }
        proof {
            assert(ports@.take(ports.len() as int) =~= ports@);
        }
    } else {
        proof {
            assert(issue_views(out@) =~= i0 + type_issues(lang, *s, *sp));
        }
    }
    let ghost i1 = issue_views(out@);
    let selector = match sp.selector_entries {
        Some(n) => n > 0,
        None => false,
    };
    if !selector && !headless && !(str_eq(ns, "default") && str_eq(name, "kubernetes")) {
        let issue = make_issue(
            IssueSeverity::Warning,
            "Service",
            lang_fmt2(
                lang,
                "Service {}/{} has no selector and may not have endpoints",
                "服务 {}/{} 没有选择器，可能没有端点",
                ns,
                name,
            ),
            join_ref(ns, name),
            lang.t(
                "Ensure service has proper selectors or manual endpoints",
                "确保服务具有正确的选择器或手动端点",
            ),
            "303",
        );
        push_issue(out, issue);
    }
    proof {
        assert(issue_views(out@) =~= i1 + selector_issues(lang, *s, *sp));
        assert(issue_views(out@) =~= i0 + service_issues(lang, *s));
    }
    (selector, headless)
}

/// Scans the services: how many there are, how many have a selector, how
/// many are headless, and the service issues.
pub fn scan_services(lang: Lang, services: &Vec<ServiceInfo>) -> (r: ServiceScan)
    ensures
        service_scan_matches(lang, services@, r),
{
    let mut issues: Vec<Issue> = Vec::new();
    let mut with_endpoints: usize = 0;
    let mut headless: usize = 0;
    let mut i: usize = 0;
    proof {
        assert(issue_views(issues@) =~= services_issues(lang, services@.take(0)));
    }
    while i < services.len()
        invariant
            i <= services.len(),
            with_endpoints == count_services(services@.take(i as int), 0),
            headless == count_services(services@.take(i as int), 1),
            with_endpoints <= i,
            headless <= i,
            issue_views(issues@) == services_issues(lang, services@.take(i as int)),
        decreases services.len() - i,
    {
        proof {
            assert(services@.take(i as int + 1).drop_last() =~= services@.take(i as int));
        }
        let (sel, hl) = scan_service(lang, &services[i], &mut issues);
        if sel {
            with_endpoints = with_endpoints + 1;
        }
        if hl {
            headless = headless + 1;
        }
        i = i + 1;
    }
    proof {
        assert(services@.take(services.len() as int) =~= services@);
    }
    ServiceScan { total_services: services.len(), services_with_endpoints: with_endpoints, headless_services: headless, issues }
}

/// Checks the DNS deployment among the deployments of `kube-system`: the
/// first one named like CoreDNS or kube-dns must have all its desired
/// replicas ready. Returns whether DNS is healthy, and adds the issue
/// found.
#[verifier::loop_isolation(false)]
pub fn check_dns_configuration(lang: Lang, deployments: &Vec<DeploymentReplicas>, out: &mut Vec<Issue>) -> (ok: bool)
    ensures
        ok == dns_check_spec(lang, deployments@).0,
        issue_views(final(out)@) == issue_views(old(out)@) + dns_check_spec(lang, deployments@).1,
{
    let ghost i0 = issue_views(out@);
    let mut i: usize = 0;
    proof {
        assert(deployments@.skip(0) =~= deployments@);
    }
    while i < deployments.len()
        invariant
            i <= deployments.len(),
            first_dns(deployments@) == first_dns(deployments@.skip(i as int)),
            issue_views(out@) == i0,
        decreases deployments.len() - i,
    {
        proof {
            assert(deployments@.skip(i as int)[0] == deployments@[i as int]);
            assert(deployments@.skip(i as int).drop_first() =~= deployments@.skip(i as int + 1));
        }
        let d = &deployments[i];
        if let Some(name) = &d.name {
            let nv = chars_of(name.as_str());
            if contains_str(&nv, "coredns") || contains_str(&nv, "kube-dns") {
                let ready: i32 = match d.ready_replicas {
                    Some(v) => v,
                    None => 0,
                };
                let desired: i32 = match d.replicas {
                    Some(v) => v,
                    None => 0,
                };
                if d.has_status && ready < desired {
                    let rs = i64_to_string(ready as i64);
                    let ds = i64_to_string(desired as i64);
                    let mut res = owned("kube-system/");
                    push_str(&mut res, name.as_str());
                    let issue = make_issue(
                        IssueSeverity::Critical,
                        "Deployment",
                        lang_fmt3(
                            lang,
                            "DNS deployment {} has {}/{} replicas ready",
                            "DNS 部署 {} 有 {}/{} 个副本就绪",
                            name.as_str(),
                            rs.as_str(),
                            ds.as_str(),
                        ),
                        res,
                        lang.t(
                            "Check DNS deployment logs and resource availability",
                            "检查 DNS 部署日志和资源可用性",
                        ),
                        "304",
                    );
                    push_issue(out, issue);
                    proof {
                        assert(issue_views(out@) =~= i0 + dns_check_spec(lang, deployments@).1);
                    }
                    return false;
                }
                proof {
                    assert(issue_views(out@) =~= i0 + seq![]);
                }
                return true;
            }
        }
        i = i + 1;
    }
    proof {
        assert(deployments@.skip(i as int) =~= seq![]);
    }
    let issue = make_issue(
        IssueSeverity::Critical,
        "Namespace",
        owned(lang.t("No DNS service deployment found", "未找到 DNS 服务部署")),
        owned("kube-system"),
        lang.t(
            "Deploy CoreDNS or kube-dns for cluster DNS resolution",
            "部署 CoreDNS 或 kube-dns 以提供集群 DNS 解析",
        ),
        "305",
    );
    push_issue(out, issue);
    proof {
        assert(issue_views(out@) =~= i0 + dns_check_spec(lang, deployments@).1);
    }
    false
}

/// Number of distinct namespaces that hold a network policy.
pub fn count_policy_namespaces(ps: &Vec<Option<String>>) -> (r: usize)
    ensures
        r == policy_namespace_set(ps@).len(),
{
    let mut seen: Vec<String> = Vec::new();
    let mut i: usize = 0;
    proof {
        assert(seen@.map_values(|s: String| s@).to_set() =~= policy_namespace_set(ps@.take(0)));
    }
    while i < ps.len()
        invariant
            i <= ps.len(),
            seen.len() <= i,
            seen@.map_values(|s: String| s@).no_duplicates(),
            seen@.map_values(|s: String| s@).to_set() == policy_namespace_set(ps@.take(i as int)),
        decreases ps.len() - i,
    {
        let ghost sv = seen@.map_values(|s: String| s@);
        let ghost pre = ps@.take(i as int);
        let ghost cur = ps@.take(i as int + 1);
        proof {
            assert forall|j: int| 0 <= j < i implies #[trigger] ns_at(cur, j) == ns_at(pre, j) by {}
            assert(ns_at(cur, i as int) == ns_at(ps@, i as int));
            assert forall|n: Seq<char>| policy_namespace_set(pre).contains(n) implies #[trigger] sv.contains(n) by {
                assert(sv.to_set().contains(n));
            }
            assert forall|n: Seq<char>| #[trigger] sv.contains(n) implies policy_namespace_set(pre).contains(n) by {
                assert(sv.to_set().contains(n));
            }
        }
        if let Some(ns) = &ps[i] {
            let mut k: usize = 0;
            let mut found = false;
            while k < seen.len()
                invariant
                    k <= seen.len(),
                    sv == seen@.map_values(|s: String| s@),
                    found == exists|m: int| 0 <= m < k && #[trigger] sv[m] == ns@,
                decreases seen.len() - k,
            {
                proof {
                    assert(sv[k as int] == seen@[k as int]@);
                }
                if str_eq(seen[k].as_str(), ns.as_str()) {
                    found = true;
                }
                k = k + 1;
            }
            if !found {
                seen.push(ns.clone());
                proof {
                    let nv = sv.push(ns@);
                    assert(seen@.map_values(|s: String| s@) =~= nv);
                    assert(!sv.contains(ns@));
                    assert forall|n: Seq<char>| #[trigger] policy_namespace_set(cur).contains(n) implies nv.contains(n) by {
                        let j = choose|j: int| 0 <= j < cur.len() && #[trigger] ns_at(cur, j) == Some(n);
                        if j < i {
                            assert(policy_namespace_set(pre).contains(n)) by {
                                assert(ns_at(pre, j) == Some(n));
                            }
                            let m = choose|m: int| 0 <= m < sv.len() && sv[m] == n;
                            assert(nv[m] == n);
                        } else {
                            assert(nv[sv.len() as int] == n);
                        }
                    }
                    assert forall|n: Seq<char>| nv.contains(n) implies #[trigger] policy_namespace_set(cur).contains(n) by {
                        if n == ns@ {
                            assert(ns_at(cur, i as int) == Some(n));
                        } else {
                            let m = choose|m: int| 0 <= m < nv.len() && nv[m] == n;
                            assert(sv[m] == n);
                            assert(sv.contains(n));
                            let j = choose|j: int| 0 <= j < pre.len() && #[trigger] ns_at(pre, j) == Some(n);
                            assert(ns_at(cur, j) == Some(n));
                        }
                    }
                    assert(nv.to_set() =~= policy_namespace_set(cur));
                }
            } else {
                proof {
                    assert forall|n: Seq<char>| #[trigger] policy_namespace_set(cur).contains(n) implies sv.contains(n) by {
                        let j = choose|j: int| 0 <= j < cur.len() && #[trigger] ns_at(cur, j) == Some(n);
                        if j < i {
                            assert(policy_namespace_set(pre).contains(n)) by {
                                assert(ns_at(pre, j) == Some(n));
                            }
                        } else {
                            let m = choose|m: int| 0 <= m < seen.len() && #[trigger] sv[m] == ns@;
                            assert(sv[m] == n);
                        }
                    }
                    assert forall|n: Seq<char>| sv.contains(n) implies #[trigger] policy_namespace_set(cur).contains(n) by {
                        let j = choose|j: int| 0 <= j < pre.len() && #[trigger] ns_at(pre, j) == Some(n);
                        assert(ns_at(cur, j) == Some(n));
                    }
                    assert(sv.to_set() =~= policy_namespace_set(cur));
                }
            }
        } else {
            proof {
                assert forall|n: Seq<char>| #[trigger] policy_namespace_set(cur).contains(n) implies sv.contains(n) by {
                    let j = choose|j: int| 0 <= j < cur.len() && #[trigger] ns_at(cur, j) == Some(n);
                    assert(j < i);
                    assert(policy_namespace_set(pre).contains(n)) by {
                        assert(ns_at(pre, j) == Some(n));
                    }
                }
                assert forall|n: Seq<char>| sv.contains(n) implies #[trigger] policy_namespace_set(cur).contains(n) by {
                    let j = choose|j: int| 0 <= j < pre.len() && #[trigger] ns_at(pre, j) == Some(n);
                    assert(ns_at(cur, j) == Some(n));
                }
                assert(sv.to_set() =~= policy_namespace_set(cur));
            }
        }
        i = i + 1;
    }
    proof {
        assert(ps@.take(ps.len() as int) =~= ps@);
        seen@.map_values(|s: String| s@).unique_seq_to_set();
    }
    seen.len()
}


proof fn lemma_node_port_codes(lang: Lang, s: ServiceInfo, ports: Seq<Option<i32>>)
    ensures
        forall|k: int|
            0 <= k < node_port_issues(lang, s, ports).len() ==> (#[trigger] node_port_issues(lang, s, ports)[k]).5
                == Some("302"@),
    decreases ports.len(),
{
    if ports.len() > 0 {
        lemma_node_port_codes(lang, s, ports.drop_last());
        let prev = node_port_issues(lang, s, ports.drop_last());
        let all = node_port_issues(lang, s, ports);
        assert forall|k: int| 0 <= k < all.len() implies (#[trigger] all[k]).5 == Some("302"@) by {
            if k < prev.len() {
                assert(all[k] == prev[k]);
            }
        }
    }
}

/// A service whose selector has at least one entry counts among the
/// services with endpoints and gets no issue 303: appending it to a
/// service list adds one to that count, and the issues it adds hold no
/// 303.
pub proof fn law_selected_service_has_endpoints(
    lang: Lang,
    ss: Seq<ServiceInfo>,
    s: ServiceInfo,
    r1: ServiceScan,
    r2: ServiceScan,
)
    requires
        s.spec is Some,
        s.spec->0.selector_entries is Some,
        s.spec->0.selector_entries->0 >= 1,
        service_scan_matches(lang, ss, r1),
        service_scan_matches(lang, ss.push(s), r2),
    ensures
        r2.services_with_endpoints == r1.services_with_endpoints + 1,
        issue_views(r2.issues@) == issue_views(r1.issues@) + service_issues(lang, s),
        forall|k: int|
            0 <= k < service_issues(lang, s).len() ==> (#[trigger] service_issues(lang, s)[k]).5 != Some("303"@),
{
    assert(ss.push(s).drop_last() =~= ss);
    reveal_strlit("301");
    reveal_strlit("302");
    reveal_strlit("303");
    assert("301"@ != "303"@) by {
        assert("301"@[2] != "303"@[2]);
    }
    assert("302"@ != "303"@) by {
        assert("302"@[2] != "303"@[2]);
    }
    let sp = s.spec->0;
    lemma_node_port_codes(lang, s, sp.node_ports@);
    let t = type_issues(lang, s, sp);
    assert(selector_issues(lang, s, sp) =~= Seq::<IssueSpec>::empty());
    assert(service_issues(lang, s) =~= t);
    assert forall|k: int| 0 <= k < t.len() implies (#[trigger] t[k]).5 != Some("303"@) by {
        if opt_is(sp.type_, "LoadBalancer"@) {
        } else if opt_is(sp.type_, "NodePort"@) {
            assert(t[k] == node_port_issues(lang, s, sp.node_ports@)[k]);
        }
    }
}


/// A service whose selector is missing or empty does not count among the
/// services with endpoints; unless it is headless or the API server's
/// `default/kubernetes`, it gets an issue 303.
pub proof fn law_unselected_service_has_no_endpoints(
    lang: Lang,
    ss: Seq<ServiceInfo>,
    s: ServiceInfo,
    r1: ServiceScan,
    r2: ServiceScan,
)
    requires
        s.spec is Some,
        s.spec->0.selector_entries is None || s.spec->0.selector_entries->0 == 0,
        service_scan_matches(lang, ss, r1),
        service_scan_matches(lang, ss.push(s), r2),
    ensures
        r2.services_with_endpoints == r1.services_with_endpoints,
        !is_headless(s.spec->0) && !(svc_ns(s) == "default"@ && svc_name(s) == "kubernetes"@) ==> exists|k: int|
            0 <= k < service_issues(lang, s).len() && (#[trigger] service_issues(lang, s)[k]).5 == Some("303"@),
{
    assert(ss.push(s).drop_last() =~= ss);
    let sp = s.spec->0;
    let t = type_issues(lang, s, sp);
    if !is_headless(sp) && !(svc_ns(s) == "default"@ && svc_name(s) == "kubernetes"@) {
        assert(service_issues(lang, s)[t.len() as int] == selector_issues(lang, s, sp)[0]);
    }
}

} // verus!
