//! Security inspection: pod security contexts (root users, privileged
//! containers, privilege escalation).

use vstd::prelude::*;

use crate::inspections::common::{
    issue_view, issue_views, join_ref, make_issue, make_verdict, or_default, push_issue, str_or, verdict_view, CheckVerdict,
    IssueSpec,
};
use crate::inspections::is_scoring_excluded_namespace;
use crate::inspections::scoring_excluded;
use crate::inspections::types::{CheckStatus, Issue, IssueSeverity};
use crate::utils::lang::{fill, lang_fmt1, lang_fmt2, lang_fmt3, pick, Lang};
use crate::utils::text::{chars_of, dec, owned, starts_with, starts_with_str, str_eq, u64_to_string};

verus! {

/// Security context of a container.
#[derive(Debug, Clone)]
pub struct ContainerSecurityContext {
    pub privileged: Option<bool>,
    pub run_as_user: Option<i64>,
    pub allow_privilege_escalation: Option<bool>,
}

/// A container: its name and security context.
#[derive(Debug, Clone)]
pub struct ContainerSecurityInfo {
    pub name: String,
    pub security_context: Option<ContainerSecurityContext>,
}

/// Security context of a pod.
#[derive(Debug, Clone)]
pub struct PodSecurityContext {
    pub run_as_user: Option<i64>,
}

/// The spec of a pod, as far as security is concerned.
#[derive(Debug, Clone)]
pub struct PodSecuritySpec {
    pub security_context: Option<PodSecurityContext>,
    pub containers: Vec<ContainerSecurityInfo>,
}

/// A pod.
#[derive(Debug, Clone)]
pub struct PodSecurityInfo {
    pub name: Option<String>,
    pub namespace: Option<String>,
    pub spec: Option<PodSecuritySpec>,
}

/// Outcome of the pod security scan.
#[derive(Debug, Clone)]
pub struct PodSecurityScan {
    /// Scored pods.
    pub total_pods: usize,
    /// Scored pods found secure.
    pub secure_pods: usize,
    /// Pods and containers running as root (held at `usize::MAX`).
    pub running_as_root: usize,
    /// Privileged containers (held at `usize::MAX`).
    pub privileged_containers: usize,
    pub issues: Vec<Issue>,
}

pub open spec fn ps_ns(p: PodSecurityInfo) -> Seq<char> {
    or_default(p.namespace, "default"@)
}

pub open spec fn ps_name(p: PodSecurityInfo) -> Seq<char> {
    or_default(p.name, "unknown"@)
}

pub open spec fn ps_ref(p: PodSecurityInfo) -> Seq<char> {
    ps_ns(p) + "/"@ + ps_name(p)
}

pub open spec fn capped(n: nat) -> usize {
    if n > usize::MAX {
        usize::MAX
    } else {
        n as usize
    }
}

/// The pod-level security context runs as root.
pub open spec fn pod_runs_as_root(sp: PodSecuritySpec) -> bool {
    sp.security_context is Some && sp.security_context->0.run_as_user == Some(0i64)
}

pub open spec fn c_privileged(c: ContainerSecurityInfo) -> bool {
    c.security_context is Some && c.security_context->0.privileged == Some(true)
}

pub open spec fn c_root(c: ContainerSecurityInfo) -> bool {
    c.security_context is Some && c.security_context->0.run_as_user == Some(0i64)
}

pub open spec fn c_escalation(c: ContainerSecurityInfo) -> bool {
    c.security_context is Some && c.security_context->0.allow_privilege_escalation == Some(true)
}

pub open spec fn c_insecure(c: ContainerSecurityInfo) -> bool {
    c_privileged(c) || c_root(c) || c_escalation(c)
}

/// A pod is secure unless its spec lacks a pod security context, runs as
/// root, or has a privileged, root or escalating container.
pub open spec fn pod_secure(p: PodSecurityInfo) -> bool {
    match p.spec {
        Some(sp) => sp.security_context is Some && !pod_runs_as_root(sp) && forall|i: int|
            0 <= i < sp.containers.len() ==> !c_insecure(#[trigger] sp.containers@[i]),
        None => true,
    }
}

pub open spec fn sec_issue(
    lang: Lang,
    p: PodSecurityInfo,
    container: Seq<char>,
    en: Seq<char>,
    zh: Seq<char>,
    rec_en: Seq<char>,
    rec_zh: Seq<char>,
    rule: Seq<char>,
) -> IssueSpec {
    (
        IssueSeverity::Warning,
        "Security"@,
        fill(pick(lang, en, zh), seq![container, ps_ns(p), ps_name(p)]),
        Some(ps_ref(p)),
        pick(lang, rec_en, rec_zh),
        Some(rule),
    )
}

/// Issues of a container: privileged (505), root (506), privilege
/// escalation (507).
pub open spec fn container_sec_issues(lang: Lang, p: PodSecurityInfo, c: ContainerSecurityInfo) -> Seq<IssueSpec> {
    (if c_privileged(c) {
        seq![
            sec_issue(
                lang,
                p,
                c.name@,
                "Container {} in pod {}/{} runs in privileged mode"@,
                "Pod {}/{} 中的容器 {} 以特权模式运行"@,
                "Remove privileged flag unless absolutely necessary"@,
                "除非绝对必要，否则移除 privileged 标志"@,
                "505"@,
            ),
        ]
    } else {
        seq![]
    }) + (if c_root(c) {
        seq![
            sec_issue(
                lang,
                p,
                c.name@,
                "Container {} in pod {}/{} runs as root"@,
                "Pod {}/{} 中的容器 {} 以 root 运行"@,
                "Configure container to run as non-root user"@,
                "配置容器以非 root 用户运行"@,
                "506"@,
            ),
        ]
    } else {
        seq![]
    }) + (if c_escalation(c) {
        seq![
            sec_issue(
                lang,
                p,
                c.name@,
                "Container {} in pod {}/{} allows privilege escalation"@,
                "Pod {}/{} 中的容器 {} 允许权限提升"@,
                "Disable allowPrivilegeEscalation"@,
                "禁用 allowPrivilegeEscalation"@,
                "507"@,
            ),
        ]
    } else {
        seq![]
    })
}

pub open spec fn containers_sec_issues(lang: Lang, p: PodSecurityInfo, cs: Seq<ContainerSecurityInfo>) -> Seq<IssueSpec>
    decreases cs.len(),
{
    if cs.len() == 0 {
        seq![]
    } else {
        containers_sec_issues(lang, p, cs.drop_last()) + container_sec_issues(lang, p, cs.last())
    }
}

/// Issues of a pod: the pod runs as root (504), then those of its
/// containers.
pub open spec fn pod_sec_issues(lang: Lang, p: PodSecurityInfo) -> Seq<IssueSpec> {
    match p.spec {
        Some(sp) => (if pod_runs_as_root(sp) {
            seq![
                (
                    IssueSeverity::Warning,
                    "Security"@,
                    fill(
                        pick(lang, "Pod {}/{} runs as root user"@, "Pod {}/{} 以 root 用户运行"@),
                        seq![ps_ns(p), ps_name(p)],
                    ),
                    Some(ps_ref(p)),
                    pick(
                        lang,
                        "Configure runAsUser to use non-root user"@,
                        "配置 runAsUser 使用非 root 用户"@,
                    ),
                    Some("504"@),
                ),
            ]
        } else {
            seq![]
        }) + containers_sec_issues(lang, p, sp.containers@),
        None => seq![],
    }
}

pub open spec fn pods_sec_issues(lang: Lang, ps: Seq<PodSecurityInfo>) -> Seq<IssueSpec>
    decreases ps.len(),
{
    if ps.len() == 0 {
        seq![]
    } else {
        pods_sec_issues(lang, ps.drop_last()) + pod_sec_issues(lang, ps.last())
    }
}

/// Number of containers with a flag (`which` 0 privileged, 1 root).
pub open spec fn count_flag(cs: Seq<ContainerSecurityInfo>, which: int) -> nat
    decreases cs.len(),
{
    if cs.len() == 0 {
        0
    } else {
        count_flag(cs.drop_last(), which) + if (if which == 0 {
            c_privileged(cs.last())
        } else {
            c_root(cs.last())
        }) {
            1nat
        } else {
            0nat
        }
    }
}

/// Root pods and root containers (`which` 1), or privileged containers
/// (`which` 0), over all pods.
pub open spec fn count_pods_flag(ps: Seq<PodSecurityInfo>, which: int) -> nat
    decreases ps.len(),
{
    if ps.len() == 0 {
        0
    } else {
        count_pods_flag(ps.drop_last(), which) + match ps.last().spec {
            Some(sp) => (if which == 1 && pod_runs_as_root(sp) {
                1nat
            } else {
                0nat
            }) + count_flag(sp.containers@, which),
            None => 0nat,
        }
    }
}

pub open spec fn count_scored_pods(ps: Seq<PodSecurityInfo>, secure_only: bool) -> nat
    decreases ps.len(),
{
    if ps.len() == 0 {
        0
    } else {
        count_scored_pods(ps.drop_last(), secure_only) + if !scoring_excluded(ps_ns(ps.last())) && (
        !secure_only || pod_secure(ps.last())) {
            1nat
        } else {
            0nat
        }
    }
}

pub open spec fn pod_security_matches(lang: Lang, ps: Seq<PodSecurityInfo>, s: PodSecurityScan) -> bool {
    &&& s.total_pods == count_scored_pods(ps, false)
    &&& s.secure_pods == count_scored_pods(ps, true)
    &&& s.running_as_root == capped(count_pods_flag(ps, 1))
    &&& s.privileged_containers == capped(count_pods_flag(ps, 0))
    &&& issue_views(s.issues@) == pods_sec_issues(lang, ps)
}

// ---------------------------------------------------------------------------
// Scanning
// ---------------------------------------------------------------------------

fn bump(n: usize, add: bool) -> (r: usize)
    ensures
        r == if add {
            if n == usize::MAX {
                n
            } else {
                (n + 1) as usize
            }
        } else {
            n
        },
{
    if add {
        n.saturating_add(1)
    } else {
        n
    }
}

fn push_sec_issue(
    lang: Lang,
    p: &PodSecurityInfo,
    container: &str,
    ns: &str,
    name: &str,
    en: &str,
    zh: &str,
    rec_en: &str,
    rec_zh: &str,
    rule: &str,
    out: &mut Vec<Issue>,
)
    requires
        ns@ == ps_ns(*p),
        name@ == ps_name(*p),
    ensures
        issue_views(final(out)@) == issue_views(old(out)@).push(
            sec_issue(lang, *p, container@, en@, zh@, rec_en@, rec_zh@, rule@),
        ),
{
    let issue = make_issue(
        IssueSeverity::Warning,
        "Security",
        lang_fmt3(lang, en, zh, container, ns, name),
        join_ref(ns, name),
        lang.t(rec_en, rec_zh),
        rule,
    );
    push_issue(out, issue);
}

fn scan_container_security(
    lang: Lang,
    p: &PodSecurityInfo,
    c: &ContainerSecurityInfo,
    ns: &str,
    name: &str,
    out: &mut Vec<Issue>,
) -> (r: (bool, bool, bool))
    requires
        ns@ == ps_ns(*p),
        name@ == ps_name(*p),
    ensures
        r == (c_privileged(*c), c_root(*c), c_escalation(*c)),
        issue_views(final(out)@) == issue_views(old(out)@) + container_sec_issues(lang, *p, *c),
{
    let ghost i0 = issue_views(out@);
    let (privileged, root, escalation) = match &c.security_context {
        Some(sc) => (
            match sc.privileged {
                Some(b) => b,
                None => false,
            },
            match sc.run_as_user {
                Some(u) => u == 0,
                None => false,
            },
            match sc.allow_privilege_escalation {
                Some(b) => b,
                None => false,
            },
        ),
        None => (false, false, false),
    };
    if privileged {
        push_sec_issue(
            lang,
            p,
            c.name.as_str(),
            ns,
            name,
            "Container {} in pod {}/{} runs in privileged mode",
            "Pod {}/{} 中的容器 {} 以特权模式运行",
            "Remove privileged flag unless absolutely necessary",
            "除非绝对必要，否则移除 privileged 标志",
            "505",
            out,
        );
    }
    if root {
        push_sec_issue(
            lang,
            p,
            c.name.as_str(),
            ns,
            name,
            "Container {} in pod {}/{} runs as root",
            "Pod {}/{} 中的容器 {} 以 root 运行",
            "Configure container to run as non-root user",
            "配置容器以非 root 用户运行",
            "506",
            out,
        );
    }
    if escalation {
        push_sec_issue(
            lang,
            p,
            c.name.as_str(),
            ns,
            name,
            "Container {} in pod {}/{} allows privilege escalation",
            "Pod {}/{} 中的容器 {} 允许权限提升",
            "Disable allowPrivilegeEscalation",
            "禁用 allowPrivilegeEscalation",
            "507",
            out,
        );
    }
    proof {
        assert(issue_views(out@) =~= i0 + container_sec_issues(lang, *p, *c));
    }
    (privileged, root, escalation)
}

/// Scans the pods for security contexts: scored and secure pods, pods and
/// containers running as root, privileged containers, and the issues.
pub fn check_pod_security_standards(lang: Lang, pods: &Vec<PodSecurityInfo>) -> (r: PodSecurityScan)
    ensures
        pod_security_matches(lang, pods@, r),
{
    let mut issues: Vec<Issue> = Vec::new();
    let mut total: usize = 0;
    let mut secure: usize = 0;
    let mut root: usize = 0;
    let mut privileged: usize = 0;
    let mut i: usize = 0;
    proof {
        assert(issue_views(issues@) =~= pods_sec_issues(lang, pods@.take(0)));
    }
    while i < pods.len()
        invariant
            i <= pods.len(),
            total == count_scored_pods(pods@.take(i as int), false),
            secure == count_scored_pods(pods@.take(i as int), true),
            total <= i,
            secure <= i,
            root == capped(count_pods_flag(pods@.take(i as int), 1)),
            privileged == capped(count_pods_flag(pods@.take(i as int), 0)),
            issue_views(issues@) == pods_sec_issues(lang, pods@.take(i as int)),
        decreases pods.len() - i,
    {
        proof {
            assert(pods@.take(i as int + 1).drop_last() =~= pods@.take(i as int));
        }
        let p = &pods[i];
        let ns = str_or(&p.namespace, "default");
        let name = str_or(&p.name, "unknown");
        let excluded = is_scoring_excluded_namespace(ns);
        let ghost before = issue_views(issues@);
        let ghost root0 = count_pods_flag(pods@.take(i as int), 1);
        let ghost priv0 = count_pods_flag(pods@.take(i as int), 0);
        let mut pod_is_secure = true;
        if let Some(sp) = &p.spec {
            match &sp.security_context {
                Some(sc) => {
                    if sc.run_as_user == Some(0i64) {
                        root = bump(root, true);
                        pod_is_secure = false;
                        let issue = make_issue(
                            IssueSeverity::Warning,
                            "Security",
                            lang_fmt2(lang, "Pod {}/{} runs as root user", "Pod {}/{} 以 root 用户运行", ns, name),
                            join_ref(ns, name),
                            lang.t("Configure runAsUser to use non-root user", "配置 runAsUser 使用非 root 用户"),
                            "504",
                        );
                        push_issue(&mut issues, issue);
                    }
                },
                None => {
                    pod_is_secure = false;
                },
            }
            let ghost mid = issue_views(issues@);
            let ghost root1: nat = root0 + if pod_runs_as_root(*sp) { 1nat } else { 0nat };
            let cs = &sp.containers;
            let mut k: usize = 0;
            proof {
                assert(issue_views(issues@) =~= mid + containers_sec_issues(lang, *p, cs@.take(0)));
                assert(root == capped(root1 + count_flag(cs@.take(0), 1)));
                assert(privileged == capped(priv0 + count_flag(cs@.take(0), 0)));
            }
            while k < cs.len()
                invariant
                    k <= cs.len(),
                    ns@ == ps_ns(*p),
                    name@ == ps_name(*p),
                    issue_views(issues@) == mid + containers_sec_issues(lang, *p, cs@.take(k as int)),
                    root == capped(root1 + count_flag(cs@.take(k as int), 1)),
                    privileged == capped(priv0 + count_flag(cs@.take(k as int), 0)),
                    pod_is_secure == (sp.security_context is Some && !pod_runs_as_root(*sp) && forall|m: int|
                        0 <= m < k ==> !c_insecure(#[trigger] cs@[m])),
                decreases cs.len() - k,
            {
                proof {
                    assert(cs@.take(k as int + 1).drop_last() =~= cs@.take(k as int));
                }
                let (pv, rt, esc) = scan_container_security(lang, p, &cs[k], ns, name, &mut issues);
                privileged = bump(privileged, pv);
                root = bump(root, rt);
                if pv || rt || esc {
                    pod_is_secure = false;
                }
                proof {
                    assert(issue_views(issues@) =~= mid + containers_sec_issues(
                        lang,
                        *p,
                        cs@.take(k as int + 1),
                    ));
                }
                k = k + 1;
            }
            proof {
                assert(cs@.take(cs.len() as int) =~= cs@);
                assert(issue_views(issues@) =~= before + pod_sec_issues(lang, *p));
            }
        } else {
            proof {
                assert(issue_views(issues@) =~= before + seq![]);
            }
        }
        if !excluded {
            total = total + 1;
            if pod_is_secure {
                secure = secure + 1;
            }
        }
        i = i + 1;
    }
    proof {
        assert(pods@.take(pods.len() as int) =~= pods@);
    }
    PodSecurityScan {
        total_pods: total,
        secure_pods: secure,
        running_as_root: root,
        privileged_containers: privileged,
        issues,
    }
}

// ---------------------------------------------------------------------------
// RBAC
// ---------------------------------------------------------------------------

/// A rule of a cluster role.
#[derive(Debug, Clone)]
pub struct PolicyRuleInfo {
    pub verbs: Vec<String>,
    pub resources: Option<Vec<String>>,
}

/// A cluster role.
#[derive(Debug, Clone)]
pub struct ClusterRoleInfo {
    pub name: Option<String>,
    pub rules: Option<Vec<PolicyRuleInfo>>,
}

/// A subject of a binding.
#[derive(Debug, Clone)]
pub struct SubjectInfo {
    pub kind: String,
    pub name: String,
    pub namespace: Option<String>,
}

/// A cluster role binding.
#[derive(Debug, Clone)]
pub struct ClusterRoleBindingInfo {
    pub name: Option<String>,
    pub role_ref_name: String,
    pub subjects: Option<Vec<SubjectInfo>>,
}

/// Outcome of the RBAC scan.
#[derive(Debug, Clone)]
pub struct RbacScan {
    pub total_cluster_roles: usize,
    pub dangerous_cluster_roles: usize,
    /// Risky subjects of cluster-admin bindings (held at `usize::MAX`).
    pub risky_bindings: usize,
    pub issues: Vec<Issue>,
}

pub open spec fn has_star(v: Seq<String>) -> bool {
    exists|i: int| 0 <= i < v.len() && (#[trigger] v[i])@ == "*"@
}

/// A rule that grants every verb or every resource.
pub open spec fn rule_permissive(r: PolicyRuleInfo) -> bool {
    has_star(r.verbs@) || (r.resources is Some && has_star(r.resources->0@))
}

pub open spec fn role_dangerous(r: ClusterRoleInfo) -> bool {
    r.rules is Some && exists|i: int|
        0 <= i < r.rules->0.len() && rule_permissive(#[trigger] r.rules->0@[i])
}

pub open spec fn role_name(r: ClusterRoleInfo) -> Seq<char> {
    or_default(r.name, "unknown"@)
}

/// A dangerous role gives an issue (501) unless it is a system role or a
/// cluster-admin role.
pub open spec fn role_issues(lang: Lang, r: ClusterRoleInfo) -> Seq<IssueSpec> {
    if role_dangerous(r) && !starts_with(role_name(r), "system:"@) && !starts_with(
        role_name(r),
        "cluster-admin"@,
    ) {
        seq![
            (
                IssueSeverity::Warning,
                "ClusterRole"@,
                fill(
                    pick(
                        lang,
                        "ClusterRole {} has overly permissive rules"@,
                        "ClusterRole {} 具有过于宽松的规则"@,
                    ),
                    seq![role_name(r)],
                ),
                Some(role_name(r)),
                pick(
                    lang,
                    "Review and restrict ClusterRole permissions to minimum required"@,
                    "审查并将 ClusterRole 权限限制为最小必要权限"@,
                ),
                Some("501"@),
            ),
        ]
    } else {
        seq![]
    }
}

pub open spec fn roles_issues(lang: Lang, rs: Seq<ClusterRoleInfo>) -> Seq<IssueSpec>
    decreases rs.len(),
{
    if rs.len() == 0 {
        seq![]
    } else {
        roles_issues(lang, rs.drop_last()) + role_issues(lang, rs.last())
    }
}

pub open spec fn count_dangerous(rs: Seq<ClusterRoleInfo>) -> nat
    decreases rs.len(),
{
    if rs.len() == 0 {
        0
    } else {
        count_dangerous(rs.drop_last()) + if role_dangerous(rs.last()) {
            1nat
        } else {
            0nat
        }
    }
}

pub open spec fn risky_user(s: SubjectInfo) -> bool {
    s.kind@ == "User"@ && !starts_with(s.name@, "system:"@)
}

pub open spec fn risky_sa(s: SubjectInfo) -> bool {
    s.kind@ == "ServiceAccount"@ && !(s.namespace is Some && s.namespace->0@ == "kube-system"@)
}

pub open spec fn subject_issues(lang: Lang, binding: Seq<char>, s: SubjectInfo) -> Seq<IssueSpec> {
    (if risky_user(s) {
        seq![
            (
                IssueSeverity::Warning,
                "ClusterRoleBinding"@,
                fill(
                    pick(lang, "User {} has cluster-admin privileges"@, "用户 {} 具有 cluster-admin 权限"@),
                    seq![s.name@],
                ),
                Some(binding),
                pick(
                    lang,
                    "Minimize cluster-admin privileges and use more specific roles"@,
                    "最小化 cluster-admin 权限并使用更具体的角色"@,
                ),
                Some("502"@),
            ),
        ]
    } else {
        seq![]
    }) + (if risky_sa(s) {
        seq![
            (
                IssueSeverity::Critical,
                "ClusterRoleBinding"@,
                fill(
                    pick(
                        lang,
                        "ServiceAccount {}/{} has cluster-admin privileges"@,
                        "ServiceAccount {}/{} 具有 cluster-admin 权限"@,
                    ),
                    seq![or_default(s.namespace, "default"@), s.name@],
                ),
                Some(binding),
                pick(
                    lang,
                    "Review and restrict ServiceAccount permissions"@,
                    "审查并限制 ServiceAccount 权限"@,
                ),
                Some("503"@),
            ),
        ]
    } else {
        seq![]
    })
}

pub open spec fn subjects_issues(lang: Lang, binding: Seq<char>, ss: Seq<SubjectInfo>) -> Seq<IssueSpec>
    decreases ss.len(),
{
    if ss.len() == 0 {
        seq![]
    } else {
        subjects_issues(lang, binding, ss.drop_last()) + subject_issues(lang, binding, ss.last())
    }
}

pub open spec fn count_risky(ss: Seq<SubjectInfo>) -> nat
    decreases ss.len(),
{
    if ss.len() == 0 {
        0
    } else {
        count_risky(ss.drop_last()) + (if risky_user(ss.last()) {
            1nat
        } else {
            0nat
        }) + (if risky_sa(ss.last()) {
            1nat
        } else {
            0nat
        })
    }
}

pub open spec fn binding_subjects(b: ClusterRoleBindingInfo) -> Seq<SubjectInfo> {
    if b.role_ref_name@ == "cluster-admin"@ && b.subjects is Some {
        b.subjects->0@
    } else {
        seq![]
    }
}

pub open spec fn bindings_issues(lang: Lang, bs: Seq<ClusterRoleBindingInfo>) -> Seq<IssueSpec>
    decreases bs.len(),
{
    if bs.len() == 0 {
        seq![]
    } else {
        bindings_issues(lang, bs.drop_last()) + subjects_issues(
            lang,
            or_default(bs.last().name, "unknown"@),
            binding_subjects(bs.last()),
        )
    }
}

pub open spec fn bindings_risky(bs: Seq<ClusterRoleBindingInfo>) -> nat
    decreases bs.len(),
{
    if bs.len() == 0 {
        0
    } else {
        bindings_risky(bs.drop_last()) + count_risky(binding_subjects(bs.last()))
    }
}

pub open spec fn rbac_matches(lang: Lang, rs: Seq<ClusterRoleInfo>, bs: Seq<ClusterRoleBindingInfo>, s: RbacScan) -> bool {
    &&& s.total_cluster_roles == rs.len()
    &&& s.dangerous_cluster_roles == count_dangerous(rs)
    &&& s.risky_bindings == capped(bindings_risky(bs))
    &&& issue_views(s.issues@) == roles_issues(lang, rs) + bindings_issues(lang, bs)
}

fn vec_has_star(v: &Vec<String>) -> (r: bool)
    ensures
        r == has_star(v@),
{
    let mut i: usize = 0;
    while i < v.len()
        invariant
            i <= v.len(),
            forall|k: int| 0 <= k < i ==> (#[trigger] v@[k])@ != "*"@,
        decreases v.len() - i,
    {
        if str_eq(v[i].as_str(), "*") {
            return true;
        }
        i = i + 1;
    }
    false
}

#[verifier::loop_isolation(false)]
fn role_is_dangerous(r: &ClusterRoleInfo) -> (d: bool)
    ensures
        d == role_dangerous(*r),
{
    match &r.rules {
        Some(rules) => {
            let mut i: usize = 0;
            while i < rules.len()
                invariant
                    i <= rules.len(),
                    forall|k: int| 0 <= k < i ==> !rule_permissive(#[trigger] rules@[k]),
                decreases rules.len() - i,
            {
                let rule = &rules[i];
                let star = vec_has_star(&rule.verbs) || match &rule.resources {
                    Some(res) => vec_has_star(res),
                    None => false,
                };
                if star {
                    proof {
                        assert(r.rules->0@ == rules@);
                        assert(rule_permissive(r.rules->0@[i as int]));
                    }
                    return true;
                }
                i = i + 1;
            }
            false
        },
        None => false,
    }
}

fn scan_subject(lang: Lang, binding: &str, s: &SubjectInfo, out: &mut Vec<Issue>) -> (n: usize)
    ensures
        n == (if risky_user(*s) { 1nat } else { 0nat }) + (if risky_sa(*s) { 1nat } else { 0nat }),
        issue_views(final(out)@) == issue_views(old(out)@) + subject_issues(lang, binding@, *s),
{
    let ghost i0 = issue_views(out@);
    let mut n: usize = 0;
    let kind = s.kind.as_str();
    let sv = chars_of(s.name.as_str());
    if str_eq(kind, "User") && !starts_with_str(&sv, "system:") {
        n = n + 1;
        let issue = make_issue(
            IssueSeverity::Warning,
            "ClusterRoleBinding",
            lang_fmt1(lang, "User {} has cluster-admin privileges", "用户 {} 具有 cluster-admin 权限", s.name.as_str()),
            owned(binding),
            lang.t(
                "Minimize cluster-admin privileges and use more specific roles",
                "最小化 cluster-admin 权限并使用更具体的角色",
            ),
            "502",
        );
        push_issue(out, issue);
    }
    let in_system = match &s.namespace {
        Some(ns) => str_eq(ns.as_str(), "kube-system"),
        None => false,
    };
    if str_eq(kind, "ServiceAccount") && !in_system {
        n = n + 1;
        let ns = str_or(&s.namespace, "default");
        let issue = make_issue(
            IssueSeverity::Critical,
            "ClusterRoleBinding",
            lang_fmt2(
                lang,
                "ServiceAccount {}/{} has cluster-admin privileges",
                "ServiceAccount {}/{} 具有 cluster-admin 权限",
                ns,
                s.name.as_str(),
            ),
            owned(binding),
            lang.t("Review and restrict ServiceAccount permissions", "审查并限制 ServiceAccount 权限"),
            "503",
        );
        push_issue(out, issue);
    }
    proof {
        assert(issue_views(out@) =~= i0 + subject_issues(lang, binding@, *s));
    }
    n
}

/// Scans cluster roles for overly permissive rules and cluster-admin
/// bindings for users and service accounts outside the system.
pub fn check_rbac_configuration(
    lang: Lang,
    roles: &Vec<ClusterRoleInfo>,
    bindings: &Vec<ClusterRoleBindingInfo>,
) -> (r: RbacScan)
    ensures
        rbac_matches(lang, roles@, bindings@, r),
{
    let mut issues: Vec<Issue> = Vec::new();
    let mut dangerous: usize = 0;
    let mut i: usize = 0;
    proof {
        assert(issue_views(issues@) =~= roles_issues(lang, roles@.take(0)));
    }
    while i < roles.len()
        invariant
            i <= roles.len(),
            dangerous == count_dangerous(roles@.take(i as int)),
            dangerous <= i,
            issue_views(issues@) == roles_issues(lang, roles@.take(i as int)),
        decreases roles.len() - i,
    {
        proof {
            assert(roles@.take(i as int + 1).drop_last() =~= roles@.take(i as int));
        }
        let role = &roles[i];
        if role_is_dangerous(role) {
            dangerous = dangerous + 1;
            let name = str_or(&role.name, "unknown");
            let nv = chars_of(name);
            if !starts_with_str(&nv, "system:") && !starts_with_str(&nv, "cluster-admin") {
                let issue = make_issue(
                    IssueSeverity::Warning,
                    "ClusterRole",
                    lang_fmt1(
                        lang,
                        "ClusterRole {} has overly permissive rules",
                        "ClusterRole {} 具有过于宽松的规则",
                        name,
                    ),
                    owned(name),
                    lang.t(
                        "Review and restrict ClusterRole permissions to minimum required",
                        "审查并将 ClusterRole 权限限制为最小必要权限",
                    ),
                    "501",
                );
                push_issue(&mut issues, issue);
            }
        }
        proof {
            assert(issue_views(issues@) =~= roles_issues(lang, roles@.take(i as int + 1)));
        }
        i = i + 1;
    }
    proof {
        assert(roles@.take(roles.len() as int) =~= roles@);
    }
    let ghost after_roles = issue_views(issues@);
    let mut risky: usize = 0;
    let mut j: usize = 0;
    proof {
        assert(issue_views(issues@) =~= after_roles + bindings_issues(lang, bindings@.take(0)));
    }
    while j < bindings.len()
        invariant
            j <= bindings.len(),
            risky == capped(bindings_risky(bindings@.take(j as int))),
            issue_views(issues@) == after_roles + bindings_issues(lang, bindings@.take(j as int)),
        decreases bindings.len() - j,
    {
        proof {
            assert(bindings@.take(j as int + 1).drop_last() =~= bindings@.take(j as int));
        }
        let b = &bindings[j];
        let bname = str_or(&b.name, "unknown");
        let ghost base = bindings_risky(bindings@.take(j as int));
        let ghost before = issue_views(issues@);
        if str_eq(b.role_ref_name.as_str(), "cluster-admin") {
            if let Some(subjects) = &b.subjects {
                let mut k: usize = 0;
                proof {
                    assert(issue_views(issues@) =~= before + subjects_issues(lang, bname@, subjects@.take(0)));
                }
                while k < subjects.len()
                    invariant
                        k <= subjects.len(),
                        risky == capped(base + count_risky(subjects@.take(k as int))),
                        issue_views(issues@) == before + subjects_issues(lang, bname@, subjects@.take(k as int)),
                    decreases subjects.len() - k,
                {
                    proof {
                        assert(subjects@.take(k as int + 1).drop_last() =~= subjects@.take(k as int));
                    }
                    let n = scan_subject(lang, bname, &subjects[k], &mut issues);
                    risky = risky.saturating_add(n);
                    proof {
                        assert(issue_views(issues@) =~= before + subjects_issues(
                            lang,
                            bname@,
                            subjects@.take(k as int + 1),
                        ));
                    }
                    k = k + 1;
                }
                proof {
                    assert(subjects@.take(subjects.len() as int) =~= subjects@);
                }
            } else {
                proof {
                    assert(issue_views(issues@) =~= before + seq![]);
                }
            }
        } else {
            proof {
                assert(issue_views(issues@) =~= before + seq![]);
            }
        }
        proof {
            assert(issue_views(issues@) =~= after_roles + bindings_issues(lang, bindings@.take(j as int + 1)));
        }
        j = j + 1;
    }
    proof {
        assert(bindings@.take(bindings.len() as int) =~= bindings@);
    }
    RbacScan {
        total_cluster_roles: roles.len(),
        dangerous_cluster_roles: dangerous,
        risky_bindings: risky,
        issues,
    }
}


/// What the service-account check reads of a pod: name, namespace, whether
/// it has a spec, and the service account that the spec names.
#[derive(Debug, Clone)]
pub struct PodAccountInfo {
    pub name: Option<String>,
    pub namespace: Option<String>,
    pub has_spec: bool,
    pub service_account: Option<String>,
}

/// Outcome of the service-account scan: scored pods (outside the excluded
/// namespaces), those among them with a dedicated account, and the issues.
#[derive(Debug, Clone)]
pub struct AccountScan {
    pub total: usize,
    pub custom: usize,
    pub issues: Vec<Issue>,
}

pub open spec fn uses_default_account(p: PodAccountInfo) -> bool {
    p.has_spec && or_default(p.service_account, "default"@) == "default"@
}

/// Each pod with a spec that runs under the default account is an issue
/// (509), in the excluded namespaces too.
pub open spec fn account_issues(lang: Lang, ps: Seq<PodAccountInfo>) -> Seq<IssueSpec>
    decreases ps.len(),
{
    if ps.len() == 0 {
        seq![]
    } else {
        let p = ps.last();
        let name = or_default(p.name, "unknown"@);
        let ns = or_default(p.namespace, "default"@);
        account_issues(lang, ps.drop_last()) + if uses_default_account(p) {
            seq![(IssueSeverity::Warning, "ServiceAccount"@, fill(pick(lang, "Pod {}/{} uses default service account"@, "Pod {}/{} 使用默认服务账号"@), seq![ns, name]),
                Some(ns + "/"@ + name), pick(lang, "Create and use dedicated service accounts with minimal permissions"@, "创建并使用具有最小权限的专用服务账号"@),
                Some("509"@))]
        } else {
            seq![]
        }
    }
}

/// Scored pods and scored pods with a dedicated account.
pub open spec fn account_counts(ps: Seq<PodAccountInfo>) -> (nat, nat)
    decreases ps.len(),
{
    if ps.len() == 0 {
        (0, 0)
    } else {
        let prev = account_counts(ps.drop_last());
        let p = ps.last();
        let scored = !scoring_excluded(or_default(p.namespace, "default"@));
        (prev.0 + if scored { 1nat } else { 0nat }, prev.1 + if scored && p.has_spec && !uses_default_account(p) {
            1nat
        } else {
            0nat
        })
    }
}

proof fn lemma_account_counts_bound(ps: Seq<PodAccountInfo>)
    ensures
        account_counts(ps).1 <= account_counts(ps).0 <= ps.len(),
    decreases ps.len(),
{
    if ps.len() > 0 {
        lemma_account_counts_bound(ps.drop_last());
    }
}

/// Scans the pods' service accounts.
pub fn check_service_accounts(lang: Lang, pods: &Vec<PodAccountInfo>) -> (r: AccountScan)
    ensures
        r.total == account_counts(pods@).0,
        r.custom == account_counts(pods@).1,
        issue_views(r.issues@) == account_issues(lang, pods@),
{
    let mut issues: Vec<Issue> = Vec::new();
    let mut total: usize = 0;
    let mut custom: usize = 0;
    let mut i: usize = 0;
    proof {
        assert(issue_views(issues@) =~= account_issues(lang, pods@.take(0)));
    }
    while i < pods.len()
        invariant
            i <= pods.len(),
            total == account_counts(pods@.take(i as int)).0,
            custom == account_counts(pods@.take(i as int)).1,
            issue_views(issues@) == account_issues(lang, pods@.take(i as int)),
        decreases pods.len() - i,
    {
        proof {
            assert(pods@.take(i as int + 1).drop_last() =~= pods@.take(i as int));
            lemma_account_counts_bound(pods@.take(i as int));
        }
        let p = &pods[i];
        let name = str_or(&p.name, "unknown");
        let ns = str_or(&p.namespace, "default");
        let excluded = is_scoring_excluded_namespace(ns);
        if !excluded {
            total = total + 1;
        }
        let ghost before = issue_views(issues@);
        if p.has_spec {
            let sa = str_or(&p.service_account, "default");
            if str_eq(sa, "default") {
                let d = lang_fmt2(lang, "Pod {}/{} uses default service account", "Pod {}/{} 使用默认服务账号", ns, name);
                let issue = make_issue(IssueSeverity::Warning, "ServiceAccount", d, join_ref(ns, name),
                    lang.t("Create and use dedicated service accounts with minimal permissions", "创建并使用具有最小权限的专用服务账号"), "509");
                push_issue(&mut issues, issue);
            } else if !excluded {
                custom = custom + 1;
            }
        }
        proof {
            assert(issue_views(issues@) =~= account_issues(lang, pods@.take(i as int + 1)));
        }
        i = i + 1;
    }
    proof {
        assert(pods@.take(pods.len() as int) =~= pods@);
    }
    AccountScan { total, custom, issues }
}

/// The service-account check passes when at least 80% of the scored pods
/// (or all, when there are none) use a dedicated account; its score is
/// that share, but no less than 60.
pub fn service_account_verdict(lang: Lang, custom: usize, total: usize) -> (r: CheckVerdict)
    ensures
        verdict_view(r) == ("Service Account Usage"@, pick(lang, "Checks if pods use dedicated service accounts"@, "检查 Pod 是否使用专用服务账号"@),
            if total == 0 || 10 * custom >= 8 * total { CheckStatus::Pass } else { CheckStatus::Warning },
            fill(pick(lang, "{}/{} pods use custom service accounts"@, "{}/{} 个 Pod 使用自定义服务账号"@), seq![dec(custom as nat), dec(total as nat)]),
            if total == 0 || 10 * custom >= 8 * total {
                Seq::<Seq<char>>::empty()
            } else {
                seq![pick(lang, "Create dedicated service accounts for applications"@, "为应用创建专用服务账号"@)]
            }),
{
    let pass = total == 0 || (custom as u128) * 10 >= (total as u128) * 8;
    let c = u64_to_string(custom as u64);
    let t = u64_to_string(total as u64);
    let details = lang_fmt2(lang, "{}/{} pods use custom service accounts", "{}/{} 个 Pod 使用自定义服务账号", c.as_str(), t.as_str());
    if pass {
        make_verdict(lang, "Service Account Usage", "Checks if pods use dedicated service accounts", "检查 Pod 是否使用专用服务账号",
            CheckStatus::Pass, details, None)
    } else {
        make_verdict(lang, "Service Account Usage", "Checks if pods use dedicated service accounts", "检查 Pod 是否使用专用服务账号",
            CheckStatus::Warning, details, Some(("Create dedicated service accounts for applications", "为应用创建专用服务账号")))
    }
}

/// Coverage of network policies in percent, as an exact ratio: 60 when no
/// namespace has one, 100 when there are no namespaces.
pub open spec fn coverage_at_least(with_policies: nat, total: nat, pct: nat) -> bool {
    if with_policies == 0 {
        60 >= pct
    } else if total > 0 {
        100 * with_policies >= pct * total
    } else {
        true
    }
}

/// The network policy coverage check: an issue (508) below 50%, a pass
/// from 70%.
pub fn network_policy_verdict(lang: Lang, with_policies: usize, total: usize, out: &mut Vec<Issue>) -> (r: CheckVerdict)
    ensures
        verdict_view(r) == ("Network Policy Coverage"@, pick(lang, "Checks network policy implementation for traffic segmentation"@, "检查网络策略实施情况以实现流量隔离"@),
            if coverage_at_least(with_policies as nat, total as nat, 70) { CheckStatus::Pass } else { CheckStatus::Warning },
            fill(pick(lang, "{}/{} namespaces with network policies"@, "{}/{} 个命名空间配置了网络策略"@), seq![dec(with_policies as nat), dec(total as nat)]),
            if coverage_at_least(with_policies as nat, total as nat, 70) {
                Seq::<Seq<char>>::empty()
            } else {
                seq![pick(lang, "Implement network policies for better traffic control"@, "实施网络策略以实现更好的流量控制"@)]
            }),
        issue_views(final(out)@) == issue_views(old(out)@) + if coverage_at_least(with_policies as nat, total as nat, 50) {
            Seq::<IssueSpec>::empty()
        } else {
            seq![(IssueSeverity::Warning, "NetworkPolicy"@, pick(lang, "Low network policy coverage across namespaces"@, "各命名空间的网络策略覆盖率较低"@),
                Some("cluster"@), pick(lang, "Implement network policies for traffic segmentation"@, "实施网络策略以实现流量隔离"@), Some("508"@))]
        },
{
    let w = with_policies as u128;
    let t = total as u128;
    let at_50 = if with_policies == 0 { true } else if total > 0 { 100 * w >= 50 * t } else { true };
    let at_70 = if with_policies == 0 { false } else if total > 0 { 100 * w >= 70 * t } else { true };
    if !at_50 {
        let issue = make_issue(IssueSeverity::Warning, "NetworkPolicy",
            owned(lang.t("Low network policy coverage across namespaces", "各命名空间的网络策略覆盖率较低")), owned("cluster"),
            lang.t("Implement network policies for traffic segmentation", "实施网络策略以实现流量隔离"), "508");
        push_issue(out, issue);
    }
    proof {
        assert(issue_views(out@) =~= issue_views(old(out)@) + if coverage_at_least(with_policies as nat, total as nat, 50) {
            Seq::<IssueSpec>::empty()
        } else {
            seq![(IssueSeverity::Warning, "NetworkPolicy"@, pick(lang, "Low network policy coverage across namespaces"@, "各命名空间的网络策略覆盖率较低"@),
                Some("cluster"@), pick(lang, "Implement network policies for traffic segmentation"@, "实施网络策略以实现流量隔离"@), Some("508"@))]
        });
    }
    let a = u64_to_string(with_policies as u64);
    let b = u64_to_string(total as u64);
    let details = lang_fmt2(lang, "{}/{} namespaces with network policies", "{}/{} 个命名空间配置了网络策略", a.as_str(), b.as_str());
    if at_70 {
        make_verdict(lang, "Network Policy Coverage", "Checks network policy implementation for traffic segmentation", "检查网络策略实施情况以实现流量隔离",
            CheckStatus::Pass, details, None)
    } else {
        make_verdict(lang, "Network Policy Coverage", "Checks network policy implementation for traffic segmentation", "检查网络策略实施情况以实现流量隔离",
            CheckStatus::Warning, details, Some(("Implement network policies for better traffic control", "实施网络策略以实现更好的流量控制")))
    }
}

} // verus!
