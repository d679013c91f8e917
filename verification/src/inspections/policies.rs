//! Policy and governance inspection: resource quotas, limit ranges and pod
//! disruption budgets.

use vstd::prelude::*;

use crate::inspections::common::{
    issue_views, make_issue_opt, make_outcome, or_default, outcome_view, push_issue, str_or, CheckOutcome,
    IssueSpec, OutcomeSpec,
};
use crate::inspections::types::{CheckStatus, Issue, IssueSeverity};
use crate::utils::lang::{fill, lang_fmt1, pick, Lang};
use crate::utils::text::{dec, owned, u64_to_string};

verus! {

pub open spec fn opt_view(o: Option<&str>) -> Option<Seq<char>> {
    match o {
        Some(s) => Some(s@),
        None => None,
    }
}

pub open spec fn policy_issue(lang: Lang, sev: IssueSeverity, description: Seq<char>, res: Option<Seq<char>>, rec_en: Seq<char>, rec_zh: Seq<char>, rule: Seq<char>) -> IssueSpec {
    (sev, "Policy"@, description, res, pick(lang, rec_en, rec_zh), Some(rule))
}

fn push_policy_issue(
    lang: Lang,
    sev: IssueSeverity,
    description: String,
    res: Option<String>,
    rec_en: &str,
    rec_zh: &str,
    rule: &str,
    out: &mut Vec<Issue>,
)
    ensures
        issue_views(final(out)@) == issue_views(old(out)@).push(policy_issue(lang, sev, description@, match res {
            Some(s) => Some(s@),
            None => None,
        }, rec_en@, rec_zh@, rule@)),
{
    let issue = make_issue_opt(sev, "Policy", description, res, lang.t(rec_en, rec_zh), rule);
    push_issue(out, issue);
}

fn owned_opt(o: Option<&str>) -> (r: Option<String>)
    ensures
        match r {
            Some(s) => opt_view(o) == Some(s@),
            None => o is None,
        },
{
    match o {
        Some(s) => Some(owned(s)),
        None => None,
    }
}

fn one_rec(lang: Lang, en: &str, zh: &str) -> (r: Vec<String>)
    ensures
        r@.map_values(|s: String| s@) == seq![pick(lang, en@, zh@)],
{
    let r = vec![owned(lang.t(en, zh))];
    proof {
        assert(r@.map_values(|s: String| s@) =~= seq![pick(lang, en@, zh@)]);
    }
    r
}

/// The resource quota check for a namespace (`Some`) or the whole cluster
/// (`None`), from the number of quotas found.
pub open spec fn quota_outcome(lang: Lang, namespace: Option<Seq<char>>, count: nat) -> OutcomeSpec {
    if count == 0 && namespace is Some {
        ("Resource Quotas"@, pick(lang, "Checks namespace-level ResourceQuota presence"@, "检查命名空间级别的 ResourceQuota 是否存在"@),
            CheckStatus::Warning, 60, pick(lang, "Namespace has no ResourceQuota"@, "命名空间没有 ResourceQuota"@),
            seq![pick(lang, "Create ResourceQuota to enforce resource boundaries."@, "创建 ResourceQuota 以强制资源边界。"@)])
    } else if count == 0 {
        ("Resource Quotas"@, pick(lang, "Checks cluster-wide ResourceQuota coverage"@, "检查集群范围的 ResourceQuota 覆盖率"@),
            CheckStatus::Warning, 60, pick(lang, "No ResourceQuota objects found"@, "未找到 ResourceQuota 对象"@),
            seq![pick(lang, "Define ResourceQuota in multi-tenant namespaces."@, "在多租户命名空间中定义 ResourceQuota。"@)])
    } else {
        ("Resource Quotas"@, pick(lang, "Checks namespace quotas"@, "检查命名空间配额"@), CheckStatus::Pass, 100,
            fill(pick(lang, "{} quotas identified"@, "识别到 {} 个配额"@), seq![dec(count)]), seq![])
    }
}

/// A namespace without quotas is an issue (901); the cluster as a whole
/// without quotas is not.
pub open spec fn quota_issues(lang: Lang, namespace: Option<Seq<char>>, count: nat) -> Seq<IssueSpec> {
    if count == 0 && namespace is Some {
        seq![policy_issue(lang, IssueSeverity::Warning, pick(lang, "Namespace lacks ResourceQuota"@, "命名空间缺少 ResourceQuota"@),
            namespace, "Define ResourceQuota to prevent resource exhaustion."@, "定义 ResourceQuota 以防止资源耗尽。"@, "901"@)]
    } else {
        seq![]
    }
}

/// The resource quota check.
pub fn resource_quota_check(lang: Lang, namespace: Option<&str>, quota_count: usize, out: &mut Vec<Issue>) -> (r: CheckOutcome)
    ensures
        outcome_view(r) == quota_outcome(lang, opt_view(namespace), quota_count as nat),
        issue_views(final(out)@) == issue_views(old(out)@) + quota_issues(lang, opt_view(namespace), quota_count as nat),
{
    if quota_count == 0 {
        if namespace.is_some() {
            push_policy_issue(lang, IssueSeverity::Warning, owned(lang.t("Namespace lacks ResourceQuota", "命名空间缺少 ResourceQuota")),
                owned_opt(namespace), "Define ResourceQuota to prevent resource exhaustion.", "定义 ResourceQuota 以防止资源耗尽。", "901", out);
            proof {
                assert(issue_views(out@) =~= issue_views(old(out)@) + quota_issues(lang, opt_view(namespace), quota_count as nat));
            }
            return make_outcome("Resource Quotas",
                lang.t("Checks namespace-level ResourceQuota presence", "检查命名空间级别的 ResourceQuota 是否存在"),
                CheckStatus::Warning, 60, owned(lang.t("Namespace has no ResourceQuota", "命名空间没有 ResourceQuota")),
                one_rec(lang, "Create ResourceQuota to enforce resource boundaries.", "创建 ResourceQuota 以强制资源边界。"));
        }
        proof {
            assert(issue_views(out@) =~= issue_views(old(out)@) + quota_issues(lang, opt_view(namespace), quota_count as nat));
        }
        return make_outcome("Resource Quotas",
            lang.t("Checks cluster-wide ResourceQuota coverage", "检查集群范围的 ResourceQuota 覆盖率"),
            CheckStatus::Warning, 60, owned(lang.t("No ResourceQuota objects found", "未找到 ResourceQuota 对象")),
            one_rec(lang, "Define ResourceQuota in multi-tenant namespaces.", "在多租户命名空间中定义 ResourceQuota。"));
    }
    proof {
        assert(issue_views(out@) =~= issue_views(old(out)@) + quota_issues(lang, opt_view(namespace), quota_count as nat));
    }
    let n = u64_to_string(quota_count as u64);
    let recs: Vec<String> = Vec::new();
    proof {
        assert(recs@.map_values(|s: String| s@) =~= Seq::<Seq<char>>::empty());
    }
    make_outcome("Resource Quotas", lang.t("Checks namespace quotas", "检查命名空间配额"), CheckStatus::Pass, 100,
        lang_fmt1(lang, "{} quotas identified", "识别到 {} 个配额", n.as_str()), recs)
}

pub open spec fn limit_outcome(lang: Lang, count: nat) -> OutcomeSpec {
    if count == 0 {
        ("Limit Ranges"@, pick(lang, "Ensures namespaces have LimitRange for default resource settings"@, "确保命名空间具有用于默认资源设置的 LimitRange"@),
            CheckStatus::Warning, 65, pick(lang, "No LimitRange objects found"@, "未找到 LimitRange 对象"@),
            seq![pick(lang, "Create LimitRange to enforce default requests/limits."@, "创建 LimitRange 以强制默认请求/限制。"@)])
    } else {
        ("Limit Ranges"@, pick(lang, "Checks LimitRange presence"@, "检查 LimitRange 是否存在"@), CheckStatus::Pass, 100,
            fill(pick(lang, "{} LimitRange objects found"@, "找到 {} 个 LimitRange 对象"@), seq![dec(count)]), seq![])
    }
}

/// No limit range is an issue (902) about the namespace, or the cluster.
pub open spec fn limit_issues(lang: Lang, namespace: Option<Seq<char>>, count: nat) -> Seq<IssueSpec> {
    if count == 0 {
        seq![policy_issue(lang, IssueSeverity::Warning, pick(lang, "No LimitRange defined"@, "未定义 LimitRange"@),
            Some(match namespace {
                Some(ns) => ns,
                None => "cluster"@,
            }), "Define LimitRange to ensure pod resource defaults and limits."@, "定义 LimitRange 以确保 Pod 资源默认值和限制。"@, "902"@)]
    } else {
        seq![]
    }
}

/// The limit range check.
pub fn limit_range_check(lang: Lang, namespace: Option<&str>, limit_count: usize, out: &mut Vec<Issue>) -> (r: CheckOutcome)
    ensures
        outcome_view(r) == limit_outcome(lang, limit_count as nat),
        issue_views(final(out)@) == issue_views(old(out)@) + limit_issues(lang, opt_view(namespace), limit_count as nat),
{
    if limit_count == 0 {
        let res = match namespace {
            Some(ns) => owned(ns),
            None => owned("cluster"),
        };
        push_policy_issue(lang, IssueSeverity::Warning, owned(lang.t("No LimitRange defined", "未定义 LimitRange")), Some(res),
            "Define LimitRange to ensure pod resource defaults and limits.", "定义 LimitRange 以确保 Pod 资源默认值和限制。", "902", out);
        proof {
            assert(issue_views(out@) =~= issue_views(old(out)@) + limit_issues(lang, opt_view(namespace), limit_count as nat));
        }
        return make_outcome("Limit Ranges",
            lang.t("Ensures namespaces have LimitRange for default resource settings", "确保命名空间具有用于默认资源设置的 LimitRange"),
            CheckStatus::Warning, 65, owned(lang.t("No LimitRange objects found", "未找到 LimitRange 对象")),
            one_rec(lang, "Create LimitRange to enforce default requests/limits.", "创建 LimitRange 以强制默认请求/限制。"));
    }
    proof {
        assert(issue_views(out@) =~= issue_views(old(out)@) + limit_issues(lang, opt_view(namespace), limit_count as nat));
    }
    let n = u64_to_string(limit_count as u64);
    let recs: Vec<String> = Vec::new();
    proof {
        assert(recs@.map_values(|s: String| s@) =~= Seq::<Seq<char>>::empty());
    }
    make_outcome("Limit Ranges", lang.t("Checks LimitRange presence", "检查 LimitRange 是否存在"), CheckStatus::Pass, 100,
        lang_fmt1(lang, "{} LimitRange objects found", "找到 {} 个 LimitRange 对象", n.as_str()), recs)
}

/// What the inspection reads of a disruption budget: its name and, when it
/// has a status, the disruptions allowed and the pods expected.
#[derive(Debug, Clone)]
pub struct PdbInfo {
    pub name: Option<String>,
    pub status: Option<(i32, i32)>,
}

/// A budget blocks disruptions when it allows none while expecting more
/// than one pod.
pub open spec fn pdb_blocking(p: PdbInfo) -> bool {
    match p.status {
        Some((allowed, expected)) => allowed == 0 && expected > 1,
        None => false,
    }
}

pub open spec fn blocking_count(ps: Seq<PdbInfo>) -> nat
    decreases ps.len(),
{
    if ps.len() == 0 {
        0
    } else {
        blocking_count(ps.drop_last()) + if pdb_blocking(ps.last()) {
            1nat
        } else {
            0nat
        }
    }
}

pub open spec fn pdbs_issues(lang: Lang, ps: Seq<PdbInfo>) -> Seq<IssueSpec>
    decreases ps.len(),
{
    if ps.len() == 0 {
        seq![]
    } else {
        let p = ps.last();
        let name = or_default(p.name, "unknown"@);
        pdbs_issues(lang, ps.drop_last()) + if pdb_blocking(p) {
            seq![policy_issue(lang, IssueSeverity::Warning, fill(pick(lang, "PDB {} currently blocks disruptions"@, "PDB {} 当前阻止中断"@), seq![name]),
                Some(name), "Ensure enough replicas to satisfy PDB requirements."@, "确保有足够的副本满足 PDB 要求。"@, "904"@)]
        } else {
            seq![]
        }
    }
}

pub open spec fn pdb_outcome(lang: Lang, ps: Seq<PdbInfo>) -> OutcomeSpec {
    let blocking = blocking_count(ps);
    if ps.len() == 0 {
        ("Pod Disruption Budgets"@, pick(lang, "Checks PDB coverage"@, "检查 PDB 覆盖率"@), CheckStatus::Warning, 70,
            pick(lang, "No PDBs found"@, "未找到 PDB"@),
            seq![pick(lang, "Add PDBs for stateful or critical deployments."@, "为有状态或关键 Deployment 添加 PDB。"@)])
    } else if blocking == 0 {
        ("Pod Disruption Budgets"@, pick(lang, "Evaluates PDB coverage and status"@, "评估 PDB 覆盖率和状态"@), CheckStatus::Pass, 100,
            pick(lang, "All PDBs allow disruption"@, "所有 PDB 都允许中断"@), seq![])
    } else {
        ("Pod Disruption Budgets"@, pick(lang, "Evaluates PDB coverage and status"@, "评估 PDB 覆盖率和状态"@), CheckStatus::Warning, 80,
            fill(pick(lang, "{} PDBs currently block disruption"@, "{} 个 PDB 当前阻止中断"@), seq![dec(blocking)]),
            seq![pick(lang, "Scale workloads or adjust PDB thresholds to allow controlled disruptions."@, "扩展工作负载或调整 PDB 阈值以允许受控中断。"@)])
    }
}

/// No budget at all is an issue (903); else each blocking budget is (904).
pub open spec fn pdb_issues(lang: Lang, namespace: Option<Seq<char>>, ps: Seq<PdbInfo>) -> Seq<IssueSpec> {
    if ps.len() == 0 {
        seq![policy_issue(lang, IssueSeverity::Warning, pick(lang, "No PodDisruptionBudget configured"@, "未配置 PodDisruptionBudget"@),
            namespace, "Define PodDisruptionBudget for critical workloads to avoid voluntary eviction impact."@,
            "为关键工作负载定义 PodDisruptionBudget，以避免自愿驱逐的影响。"@, "903"@)]
    } else {
        pdbs_issues(lang, ps)
    }
}

proof fn lemma_blocking_bound(ps: Seq<PdbInfo>)
    ensures
        blocking_count(ps) <= ps.len(),
    decreases ps.len(),
{
    if ps.len() > 0 {
        lemma_blocking_bound(ps.drop_last());
    }
}

/// The disruption budget check.
pub fn pdb_check(lang: Lang, namespace: Option<&str>, pdbs: &Vec<PdbInfo>, out: &mut Vec<Issue>) -> (r: CheckOutcome)
    ensures
        outcome_view(r) == pdb_outcome(lang, pdbs@),
        issue_views(final(out)@) == issue_views(old(out)@) + pdb_issues(lang, opt_view(namespace), pdbs@),
{
    if pdbs.len() == 0 {
        push_policy_issue(lang, IssueSeverity::Warning, owned(lang.t("No PodDisruptionBudget configured", "未配置 PodDisruptionBudget")),
            owned_opt(namespace), "Define PodDisruptionBudget for critical workloads to avoid voluntary eviction impact.",
            "为关键工作负载定义 PodDisruptionBudget，以避免自愿驱逐的影响。", "903", out);
        proof {
            assert(issue_views(out@) =~= issue_views(old(out)@) + pdb_issues(lang, opt_view(namespace), pdbs@));
        }
        return make_outcome("Pod Disruption Budgets", lang.t("Checks PDB coverage", "检查 PDB 覆盖率"), CheckStatus::Warning, 70,
            owned(lang.t("No PDBs found", "未找到 PDB")),
            one_rec(lang, "Add PDBs for stateful or critical deployments.", "为有状态或关键 Deployment 添加 PDB。"));
    }
    let ghost start = issue_views(out@);
    let mut blocking: usize = 0;
    let mut i: usize = 0;
    while i < pdbs.len()
        invariant
            i <= pdbs.len(),
            blocking == blocking_count(pdbs@.take(i as int)),
            blocking <= i,
            issue_views(out@) == start + pdbs_issues(lang, pdbs@.take(i as int)),
        decreases pdbs.len() - i,
    {
        proof {
            assert(pdbs@.take(i as int + 1).drop_last() =~= pdbs@.take(i as int));
        }
        let p = &pdbs[i];
        let blocks = match p.status {
            Some((allowed, expected)) => allowed == 0 && expected > 1,
            None => false,
        };
        let ghost before = issue_views(out@);
        if blocks {
            blocking = blocking + 1;
            let name = str_or(&p.name, "unknown");
            push_policy_issue(lang, IssueSeverity::Warning,
                lang_fmt1(lang, "PDB {} currently blocks disruptions", "PDB {} 当前阻止中断", name), Some(owned(name)),
                "Ensure enough replicas to satisfy PDB requirements.", "确保有足够的副本满足 PDB 要求。", "904", out);
        }
        proof {
            assert(issue_views(out@) =~= start + pdbs_issues(lang, pdbs@.take(i as int + 1)));
        }
        i = i + 1;
    }
    proof {
        assert(pdbs@.take(pdbs.len() as int) =~= pdbs@);
    }
    if blocking == 0 {
        let recs: Vec<String> = Vec::new();
        proof {
            assert(recs@.map_values(|s: String| s@) =~= Seq::<Seq<char>>::empty());
        }
        make_outcome("Pod Disruption Budgets", lang.t("Evaluates PDB coverage and status", "评估 PDB 覆盖率和状态"), CheckStatus::Pass,
            100, owned(lang.t("All PDBs allow disruption", "所有 PDB 都允许中断")), recs)
    } else {
        let n = u64_to_string(blocking as u64);
        make_outcome("Pod Disruption Budgets", lang.t("Evaluates PDB coverage and status", "评估 PDB 覆盖率和状态"),
            CheckStatus::Warning, 80, lang_fmt1(lang, "{} PDBs currently block disruption", "{} 个 PDB 当前阻止中断", n.as_str()),
            one_rec(lang, "Scale workloads or adjust PDB thresholds to allow controlled disruptions.", "扩展工作负载或调整 PDB 阈值以允许受控中断。"))
    }
}

} // verus!
