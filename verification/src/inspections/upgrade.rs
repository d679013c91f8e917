//! Upgrade readiness: kubelet version skew and the reminder to audit
//! deprecated APIs.

use vstd::prelude::*;

use crate::inspections::common::{make_outcome, or_default, outcome_view, CheckOutcome, OutcomeSpec};
use crate::inspections::runner::{is_smallest_distinct, smallest_distinct, views};
use crate::inspections::types::CheckStatus;
use crate::utils::lang::{fill, lang_fmt1, pick, Lang};
use crate::utils::text::owned;

verus! {

/// How Rust's `{:?}` prints a list of strings.
pub uninterp spec fn debug_strings(v: Seq<Seq<char>>) -> Seq<char>;

/// `format!("{:?}", v)` on a vector of strings: the result is the named
/// value of the strings.
#[verifier::external_body]
fn debug_list(v: &Vec<String>) -> (r: String)
    ensures
        r@ == debug_strings(views(v@)),
{
    format!("{:?}", v)
}

fn one_rec(lang: Lang, en: &str, zh: &str) -> (r: Vec<String>)
    ensures
        r@.map_values(|s: String| s@) == seq![pick(lang, en@, zh@)],
{
    let r = vec![owned(lang.t(en, zh))];
    proof {
        assert(r@.map_values(|s: String| s@) =~= seq![pick(lang, en@, zh@)]);
    }
    r
}

/// The kubelet version check without nodes: a warning at 60 points.
pub open spec fn no_nodes_outcome(lang: Lang) -> OutcomeSpec {
    ("Cluster Version"@, pick(lang, "Checks control plane and kubelet versions"@, "检查控制平面和 kubelet 版本"@),
        CheckStatus::Warning, 60, pick(lang, "No nodes discovered"@, "未发现节点"@),
        seq![pick(lang, "Ensure kubeconfig has cluster-admin access."@, "确保 kubeconfig 具有 cluster-admin 访问权限。"@)])
}

/// The kubelet version check over the distinct versions, in order: 10
/// points off with a recommendation when they differ (still a pass).
pub open spec fn versions_outcome(lang: Lang, distinct: Seq<Seq<char>>) -> OutcomeSpec {
    ("Kubelet Versions"@, pick(lang, "Collects kubelet versions for upgrade planning"@, "收集 kubelet 版本以规划升级"@),
        CheckStatus::Pass, if distinct.len() > 1 { 90 } else { 100 },
        fill(pick(lang, "Detected kubelet versions: {:?}"@, "检测到的 kubelet 版本：{:?}"@), seq![debug_strings(distinct)]),
        if distinct.len() > 1 {
            seq![pick(lang, "Kubelet versions differ; align node upgrades for consistency."@, "kubelet 版本不一致；请统一节点升级以保持一致。"@)]
        } else {
            Seq::<Seq<char>>::empty()
        })
}

/// The kubelet version check, from the number of nodes and the kubelet
/// versions of those that report one.
pub fn kubelet_version_check(lang: Lang, node_count: usize, versions: &Vec<String>) -> (r: CheckOutcome)
    ensures
        node_count == 0 ==> outcome_view(r) == no_nodes_outcome(lang),
        node_count > 0 ==> exists|d: Seq<Seq<char>>|
            is_smallest_distinct(views(versions@), versions.len() as nat, d) && outcome_view(r) == versions_outcome(lang, d),
{
    if node_count == 0 {
        return make_outcome("Cluster Version", lang.t("Checks control plane and kubelet versions", "检查控制平面和 kubelet 版本"),
            CheckStatus::Warning, 60, owned(lang.t("No nodes discovered", "未发现节点")),
            one_rec(lang, "Ensure kubeconfig has cluster-admin access.", "确保 kubeconfig 具有 cluster-admin 访问权限。"));
    }
    let distinct = smallest_distinct(versions, versions.len());
    let listed = debug_list(&distinct);
    let details = lang_fmt1(lang, "Detected kubelet versions: {:?}", "检测到的 kubelet 版本：{:?}", listed.as_str());
    let r = if distinct.len() > 1 {
        make_outcome("Kubelet Versions", lang.t("Collects kubelet versions for upgrade planning", "收集 kubelet 版本以规划升级"),
            CheckStatus::Pass, 90, details,
            one_rec(lang, "Kubelet versions differ; align node upgrades for consistency.", "kubelet 版本不一致；请统一节点升级以保持一致。"))
    } else {
        let recs: Vec<String> = Vec::new();
        proof {
            assert(recs@.map_values(|s: String| s@) =~= Seq::<Seq<char>>::empty());
        }
        make_outcome("Kubelet Versions", lang.t("Collects kubelet versions for upgrade planning", "收集 kubelet 版本以规划升级"),
            CheckStatus::Pass, 100, details, recs)
    };
    proof {
        assert(outcome_view(r) == versions_outcome(lang, views(distinct@)));
    }
    r
}

/// The deprecated API reminder: a pass naming the cluster version, or
/// `unknown` when it could not be read.
pub fn deprecated_api_check(lang: Lang, cluster_version: &Option<String>) -> (r: CheckOutcome)
    ensures
        outcome_view(r) == ("Deprecated API usage"@,
            pick(lang, "Reminds to audit resources for deprecated or removed API versions before upgrade"@, "提醒您在升级前审计已弃用或已移除的 API 版本的资源"@),
            CheckStatus::Pass, 100nat,
            fill(pick(lang,
                "Cluster version: {}. Use kubectl or the official deprecation guide to audit resources for deprecated API versions (e.g. extensions/v1beta1, apps/v1beta1)."@,
                "集群版本：{}。使用 kubectl 或官方弃用指南审计已弃用或已移除的 API 版本的资源（例如 extensions/v1beta1、apps/v1beta1）。"@),
                seq![or_default(*cluster_version, "unknown"@)]),
            seq![pick(lang,
                "Migrate workloads to current API versions before upgrading. See https://kubernetes.io/docs/reference/using-api/deprecation-guide/"@,
                "升级前将工作负载迁移到当前 API 版本。参见 https://kubernetes.io/docs/reference/using-api/deprecation-guide/"@)]),
{
    let version = crate::inspections::common::str_or(cluster_version, "unknown");
    let details = lang_fmt1(lang,
        "Cluster version: {}. Use kubectl or the official deprecation guide to audit resources for deprecated API versions (e.g. extensions/v1beta1, apps/v1beta1).",
        "集群版本：{}。使用 kubectl 或官方弃用指南审计已弃用或已移除的 API 版本的资源（例如 extensions/v1beta1、apps/v1beta1）。",
        version);
    make_outcome("Deprecated API usage",
        lang.t("Reminds to audit resources for deprecated or removed API versions before upgrade", "提醒您在升级前审计已弃用或已移除的 API 版本的资源"),
        CheckStatus::Pass, 100, details,
        one_rec(lang,
            "Migrate workloads to current API versions before upgrading. See https://kubernetes.io/docs/reference/using-api/deprecation-guide/",
            "升级前将工作负载迁移到当前 API 版本。参见 https://kubernetes.io/docs/reference/using-api/deprecation-guide/"))
}

} // verus!
