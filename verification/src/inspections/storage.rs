//! Storage inspection: persistent volumes, claims and storage classes,
//! turned into issues and the counts that the storage checks are scored on.

use vstd::prelude::*;

use crate::inspections::common::{
    issue_view, issue_views, join_ref, make_global_issue, make_issue, or_default, push_issue, str_or,
    IssueSpec,
};
use crate::inspections::types::{Issue, IssueSeverity};
use crate::utils::lang::{fill, lang_fmt1, lang_fmt2, pick, Lang};
use crate::utils::text::{dec, owned, str_eq, u64_to_string};

verus! {

/// What the inspection reads of a persistent volume: its name, the phase
/// of its status and, when it has a spec, the reclaim policy.
#[derive(Debug, Clone)]
pub struct PvInfo {
    pub name: Option<String>,
    pub phase: Option<String>,
    pub has_spec: bool,
    pub reclaim_policy: Option<String>,
}

/// What the inspection reads of a persistent volume claim.
#[derive(Debug, Clone)]
pub struct PvcInfo {
    pub name: Option<String>,
    pub namespace: Option<String>,
    pub phase: Option<String>,
    pub has_spec: bool,
    pub storage_class_name: Option<String>,
}

/// What the inspection reads of a storage class: its name, the value of its
/// `storageclass.kubernetes.io/is-default-class` annotation and its
/// provisioner.
#[derive(Debug, Clone)]
pub struct StorageClassInfo {
    pub name: Option<String>,
    pub default_annotation: Option<String>,
    pub provisioner: String,
}

/// Outcome of the storage scan.
#[derive(Debug, Clone)]
pub struct StorageScan {
    pub total_pvs: usize,
    pub available_pvs: usize,
    pub bound_pvs: usize,
    pub failed_pvs: usize,
    pub total_pvcs: usize,
    pub bound_pvcs: usize,
    pub pending_pvcs: usize,
    pub total_storage_classes: usize,
    pub default_storage_classes: usize,
    pub issues: Vec<Issue>,
}

pub open spec fn opt_is(o: Option<String>, v: Seq<char>) -> bool {
    o is Some && o->0@ == v
}

// ---------------------------------------------------------------------------
// Persistent volumes
// ---------------------------------------------------------------------------

pub open spec fn pv_name(pv: PvInfo) -> Seq<char> {
    or_default(pv.name, "unknown"@)
}

pub open spec fn pv_issue(
    lang: Lang,
    pv: PvInfo,
    sev: IssueSeverity,
    en: Seq<char>,
    zh: Seq<char>,
    rec_en: Seq<char>,
    rec_zh: Seq<char>,
    rule: Seq<char>,
) -> IssueSpec {
    (
        sev,
        "PersistentVolume"@,
        fill(pick(lang, en, zh), seq![pv_name(pv)]),
        Some(pv_name(pv)),
        pick(lang, rec_en, rec_zh),
        Some(rule),
    )
}

/// Issues of the phase of a volume: failed (401), released (402).
pub open spec fn pv_phase_issues(lang: Lang, pv: PvInfo) -> Seq<IssueSpec> {
    if opt_is(pv.phase, "Failed"@) {
        seq![
            pv_issue(
                lang,
                pv,
                IssueSeverity::Critical,
                "Persistent Volume {} is in Failed state"@,
                "持久卷 {} 处于失败状态"@,
                "Check PV configuration and underlying storage"@,
                "检查 PV 配置和底层存储"@,
                "401"@,
            ),
        ]
    } else if opt_is(pv.phase, "Released"@) {
        seq![
            pv_issue(
                lang,
                pv,
                IssueSeverity::Warning,
                "Persistent Volume {} is Released but not reclaimed"@,
                "持久卷 {} 已释放但未被回收"@,
                "Check reclaim policy and clean up released PVs"@,
                "检查回收策略并清理已释放的 PV"@,
                "402"@,
            ),
        ]
    } else {
        seq![]
    }
}

/// Issues of the reclaim policy: a released volume kept by `Retain` (403);
/// a policy that is neither `Delete` nor `Retain` (404).
pub open spec fn pv_policy_issues(lang: Lang, pv: PvInfo) -> Seq<IssueSpec> {
    if !pv.has_spec || opt_is(pv.reclaim_policy, "Delete"@) {
        seq![]
    } else if opt_is(pv.reclaim_policy, "Retain"@) {
        if opt_is(pv.phase, "Released"@) {
            seq![
                pv_issue(
                    lang,
                    pv,
                    IssueSeverity::Info,
                    "PV {} with Retain policy is Released"@,
                    "具有 Retain 策略的 PV {} 已释放"@,
                    "Monitor and clean up retained PVs manually"@,
                    "手动监控并清理保留的 PV"@,
                    "403"@,
                ),
            ]
        } else {
            seq![]
        }
    } else {
        seq![
            pv_issue(
                lang,
                pv,
                IssueSeverity::Warning,
                "PV {} has unclear reclaim policy"@,
                "PV {} 的回收策略不明确"@,
                "Set explicit reclaim policy (Retain or Delete)"@,
                "设置明确的回收策略（Retain 或 Delete）"@,
                "404"@,
            ),
        ]
    }
}

pub open spec fn pvs_issues(lang: Lang, pvs: Seq<PvInfo>) -> Seq<IssueSpec>
    decreases pvs.len(),
{
    if pvs.len() == 0 {
        seq![]
    } else {
        pvs_issues(lang, pvs.drop_last()) + pv_phase_issues(lang, pvs.last()) + pv_policy_issues(
            lang,
            pvs.last(),
        )
    }
}

/// Number of volumes in the given phase.
pub open spec fn count_pv_phase(pvs: Seq<PvInfo>, ph: Seq<char>) -> nat
    decreases pvs.len(),
{
    if pvs.len() == 0 {
        0
    } else {
        count_pv_phase(pvs.drop_last(), ph) + if opt_is(pvs.last().phase, ph) {
            1nat
        } else {
            0nat
        }
    }
}

// ---------------------------------------------------------------------------
// Persistent volume claims
// ---------------------------------------------------------------------------

pub open spec fn pvc_ns(c: PvcInfo) -> Seq<char> {
    or_default(c.namespace, "default"@)
}

pub open spec fn pvc_name(c: PvcInfo) -> Seq<char> {
    or_default(c.name, "unknown"@)
}

pub open spec fn pvc_issue(
    lang: Lang,
    c: PvcInfo,
    sev: IssueSeverity,
    en: Seq<char>,
    zh: Seq<char>,
    rec_en: Seq<char>,
    rec_zh: Seq<char>,
    rule: Seq<char>,
) -> IssueSpec {
    (
        sev,
        "PersistentVolumeClaim"@,
        fill(pick(lang, en, zh), seq![pvc_ns(c), pvc_name(c)]),
        Some(pvc_ns(c) + "/"@ + pvc_name(c)),
        pick(lang, rec_en, rec_zh),
        Some(rule),
    )
}

/// Issues of a claim: pending (405), lost (406), then no storage class (407).
pub open spec fn pvc_issues(lang: Lang, c: PvcInfo) -> Seq<IssueSpec> {
    (if opt_is(c.phase, "Pending"@) {
        seq![
            pvc_issue(
                lang,
                c,
                IssueSeverity::Warning,
                "PVC {}/{} is pending"@,
                "PVC {}/{} 处于等待状态"@,
                "Check storage class availability and node capacity"@,
                "检查存储类可用性和节点容量"@,
                "405"@,
            ),
        ]
    } else if opt_is(c.phase, "Lost"@) {
        seq![
            pvc_issue(
                lang,
                c,
                IssueSeverity::Critical,
                "PVC {}/{} is lost"@,
                "PVC {}/{} 已丢失"@,
                "Data may be lost, check backup and recovery procedures"@,
                "数据可能丢失，请检查备份和恢复流程"@,
                "406"@,
            ),
        ]
    } else {
        seq![]
    }) + (if c.has_spec && c.storage_class_name is None {
        seq![
            pvc_issue(
                lang,
                c,
                IssueSeverity::Info,
                "PVC {}/{} has no storage class specified"@,
                "PVC {}/{} 未指定存储类"@,
                "Specify storage class for better provisioning control"@,
                "指定存储类以获得更好的供应控制"@,
                "407"@,
            ),
        ]
    } else {
        seq![]
    })
}

pub open spec fn pvcs_issues(lang: Lang, cs: Seq<PvcInfo>) -> Seq<IssueSpec>
    decreases cs.len(),
{
    if cs.len() == 0 {
        seq![]
    } else {
        pvcs_issues(lang, cs.drop_last()) + pvc_issues(lang, cs.last())
    }
}

pub open spec fn count_pvc_phase(cs: Seq<PvcInfo>, ph: Seq<char>) -> nat
    decreases cs.len(),
{
    if cs.len() == 0 {
        0
    } else {
        count_pvc_phase(cs.drop_last(), ph) + if opt_is(cs.last().phase, ph) {
            1nat
        } else {
            0nat
        }
    }
}

// ---------------------------------------------------------------------------
// Storage classes
// ---------------------------------------------------------------------------

pub open spec fn sc_name(sc: StorageClassInfo) -> Seq<char> {
    or_default(sc.name, "unknown"@)
}

pub open spec fn sc_issues(lang: Lang, sc: StorageClassInfo) -> Seq<IssueSpec> {
    if sc.provisioner@.len() == 0 {
        seq![
            (
                IssueSeverity::Critical,
                "StorageClass"@,
                fill(
                    pick(lang, "Storage class {} has no provisioner"@, "存储类 {} 没有 provisioner"@),
                    seq![sc_name(sc)],
                ),
                Some(sc_name(sc)),
                pick(
                    lang,
                    "Configure proper provisioner for storage class"@,
                    "为存储类配置正确的 provisioner"@,
                ),
                Some("408"@),
            ),
        ]
    } else {
        seq![]
    }
}

pub open spec fn scs_issues(lang: Lang, scs: Seq<StorageClassInfo>) -> Seq<IssueSpec>
    decreases scs.len(),
{
    if scs.len() == 0 {
        seq![]
    } else {
        scs_issues(lang, scs.drop_last()) + sc_issues(lang, scs.last())
    }
}

pub open spec fn count_default_classes(scs: Seq<StorageClassInfo>) -> nat
    decreases scs.len(),
{
    if scs.len() == 0 {
        0
    } else {
        count_default_classes(scs.drop_last()) + if opt_is(scs.last().default_annotation, "true"@) {
            1nat
        } else {
            0nat
        }
    }
}

/// The issue about the default storage class: none configured (409) or
/// more than one (410).
pub open spec fn default_class_issues(lang: Lang, n: nat) -> Seq<IssueSpec> {
    if n == 0 {
        seq![
            (
                IssueSeverity::Warning,
                "StorageClass"@,
                pick(lang, "No default storage class configured"@, "未配置默认存储类"@),
                None,
                pick(
                    lang,
                    "Configure a default storage class for automatic PV provisioning"@,
                    "配置默认存储类以实现 PV 自动供应"@,
                ),
                Some("409"@),
            ),
        ]
    } else if n > 1 {
        seq![
            (
                IssueSeverity::Warning,
                "StorageClass"@,
                fill(
                    pick(lang, "{} default storage classes configured"@, "配置了 {} 个默认存储类"@),
                    seq![dec(n)],
                ),
                None,
                pick(
                    lang,
                    "Only one storage class should be marked as default"@,
                    "只能将一个存储类标记为默认"@,
                ),
                Some("410"@),
            ),
        ]
    } else {
        seq![]
    }
}

/// Everything the storage scan states of its input.
pub open spec fn storage_scan_matches(
    lang: Lang,
    pvs: Seq<PvInfo>,
    pvcs: Seq<PvcInfo>,
    scs: Seq<StorageClassInfo>,
    s: StorageScan,
) -> bool {
    &&& s.total_pvs == pvs.len()
    &&& s.available_pvs == count_pv_phase(pvs, "Available"@)
    &&& s.bound_pvs == count_pv_phase(pvs, "Bound"@)
    &&& s.failed_pvs == count_pv_phase(pvs, "Failed"@)
    &&& s.total_pvcs == pvcs.len()
    &&& s.bound_pvcs == count_pvc_phase(pvcs, "Bound"@)
    &&& s.pending_pvcs == count_pvc_phase(pvcs, "Pending"@)
    &&& s.total_storage_classes == scs.len()
    &&& s.default_storage_classes == count_default_classes(scs)
    &&& issue_views(s.issues@) == pvs_issues(lang, pvs) + pvcs_issues(lang, pvcs) + scs_issues(
        lang,
        scs,
    ) + default_class_issues(lang, count_default_classes(scs))
}


// ---------------------------------------------------------------------------
// Scanning
// ---------------------------------------------------------------------------

fn opt_eq(o: &Option<String>, v: &str) -> (r: bool)
    ensures
        r == opt_is(*o, v@),
{
    match o {
        Some(s) => str_eq(s.as_str(), v),
        None => false,
    }
}

fn push_pv_issue(
    lang: Lang,
    pv: &PvInfo,
    name: &str,
    sev: IssueSeverity,
    en: &str,
    zh: &str,
    rec_en: &str,
    rec_zh: &str,
    rule: &str,
    out: &mut Vec<Issue>,
)
    requires
        name@ == pv_name(*pv),
    ensures
        issue_views(final(out)@) == issue_views(old(out)@).push(
            pv_issue(lang, *pv, sev, en@, zh@, rec_en@, rec_zh@, rule@),
        ),
{
    let issue = make_issue(
        sev,
        "PersistentVolume",
        lang_fmt1(lang, en, zh, name),
        owned(name),
        lang.t(rec_en, rec_zh),
        rule,
    );
    push_issue(out, issue);
}

fn scan_pv(lang: Lang, pv: &PvInfo, out: &mut Vec<Issue>)
    ensures
        issue_views(final(out)@) == issue_views(old(out)@) + pv_phase_issues(lang, *pv)
            + pv_policy_issues(lang, *pv),
{
    let ghost i0 = issue_views(out@);
    let name = str_or(&pv.name, "unknown");
    proof {
        reveal_strlit("Failed");
        reveal_strlit("Released");
        reveal_strlit("Delete");
        reveal_strlit("Retain");
    }
    if opt_eq(&pv.phase, "Failed") {
        push_pv_issue(
            lang,
            pv,
            name,
            IssueSeverity::Critical,
            "Persistent Volume {} is in Failed state",
            "持久卷 {} 处于失败状态",
            "Check PV configuration and underlying storage",
            "检查 PV 配置和底层存储",
            "401",
            out,
        );
    } else if opt_eq(&pv.phase, "Released") {
        push_pv_issue(
            lang,
            pv,
            name,
            IssueSeverity::Warning,
            "Persistent Volume {} is Released but not reclaimed",
            "持久卷 {} 已释放但未被回收",
            "Check reclaim policy and clean up released PVs",
            "检查回收策略并清理已释放的 PV",
            "402",
            out,
        );
    }
    proof {
        assert(issue_views(out@) =~= i0 + pv_phase_issues(lang, *pv));
    }
    let ghost i1 = issue_views(out@);
    if pv.has_spec && !opt_eq(&pv.reclaim_policy, "Delete") {
        if opt_eq(&pv.reclaim_policy, "Retain") {
            if opt_eq(&pv.phase, "Released") {
                push_pv_issue(
                    lang,
                    pv,
                    name,
                    IssueSeverity::Info,
                    "PV {} with Retain policy is Released",
                    "具有 Retain 策略的 PV {} 已释放",
                    "Monitor and clean up retained PVs manually",
                    "手动监控并清理保留的 PV",
                    "403",
                    out,
                );
            }
        } else {
            push_pv_issue(
                lang,
                pv,
                name,
                IssueSeverity::Warning,
                "PV {} has unclear reclaim policy",
                "PV {} 的回收策略不明确",
                "Set explicit reclaim policy (Retain or Delete)",
                "设置明确的回收策略（Retain 或 Delete）",
                "404",
                out,
            );
        }
    }
    proof {
        assert(issue_views(out@) =~= i1 + pv_policy_issues(lang, *pv));
    }
}

fn push_pvc_issue(
    lang: Lang,
    c: &PvcInfo,
    ns: &str,
    name: &str,
    sev: IssueSeverity,
    en: &str,
    zh: &str,
    rec_en: &str,
    rec_zh: &str,
    rule: &str,
    out: &mut Vec<Issue>,
)
    requires
        ns@ == pvc_ns(*c),
        name@ == pvc_name(*c),
    ensures
        issue_views(final(out)@) == issue_views(old(out)@).push(
            pvc_issue(lang, *c, sev, en@, zh@, rec_en@, rec_zh@, rule@),
        ),
{
    let issue = make_issue(
        sev,
        "PersistentVolumeClaim",
        lang_fmt2(lang, en, zh, ns, name),
        join_ref(ns, name),
        lang.t(rec_en, rec_zh),
        rule,
    );
    push_issue(out, issue);
}

fn scan_pvc(lang: Lang, c: &PvcInfo, out: &mut Vec<Issue>)
    ensures
        issue_views(final(out)@) == issue_views(old(out)@) + pvc_issues(lang, *c),
{
    let ghost i0 = issue_views(out@);
    let ns = str_or(&c.namespace, "default");
    let name = str_or(&c.name, "unknown");
    proof {
        reveal_strlit("Pending");
        reveal_strlit("Lost");
    }
    if opt_eq(&c.phase, "Pending") {
        push_pvc_issue(
            lang,
            c,
            ns,
            name,
            IssueSeverity::Warning,
            "PVC {}/{} is pending",
            "PVC {}/{} 处于等待状态",
            "Check storage class availability and node capacity",
            "检查存储类可用性和节点容量",
            "405",
            out,
        );
    } else if opt_eq(&c.phase, "Lost") {
        push_pvc_issue(
            lang,
            c,
            ns,
            name,
            IssueSeverity::Critical,
            "PVC {}/{} is lost",
            "PVC {}/{} 已丢失",
            "Data may be lost, check backup and recovery procedures",
            "数据可能丢失，请检查备份和恢复流程",
            "406",
            out,
        );
    }
    if c.has_spec && c.storage_class_name.is_none() {
        push_pvc_issue(
            lang,
            c,
            ns,
            name,
            IssueSeverity::Info,
            "PVC {}/{} has no storage class specified",
            "PVC {}/{} 未指定存储类",
            "Specify storage class for better provisioning control",
            "指定存储类以获得更好的供应控制",
            "407",
            out,
        );
    }
    proof {
        assert(issue_views(out@) =~= i0 + pvc_issues(lang, *c));
    }
}

fn scan_sc(lang: Lang, sc: &StorageClassInfo, out: &mut Vec<Issue>)
    ensures
        issue_views(final(out)@) == issue_views(old(out)@) + sc_issues(lang, *sc),
{
    let ghost i0 = issue_views(out@);
    if sc.provisioner.as_str().is_empty() {
        let name = str_or(&sc.name, "unknown");
        let issue = make_issue(
            IssueSeverity::Critical,
            "StorageClass",
            lang_fmt1(lang, "Storage class {} has no provisioner", "存储类 {} 没有 provisioner", name),
            owned(name),
            lang.t("Configure proper provisioner for storage class", "为存储类配置正确的 provisioner"),
            "408",
        );
        push_issue(out, issue);
    }
    proof {
        assert(issue_views(out@) =~= i0 + sc_issues(lang, *sc));
    }
}

/// Scans volumes, claims and storage classes: the counts of the storage
/// checks and the storage issues, in the order volumes, claims, classes,
/// default class.
pub fn scan_storage(
    lang: Lang,
    pvs: &Vec<PvInfo>,
    pvcs: &Vec<PvcInfo>,
    scs: &Vec<StorageClassInfo>,
) -> (r: StorageScan)
    ensures
        storage_scan_matches(lang, pvs@, pvcs@, scs@, r),
{
    let mut issues: Vec<Issue> = Vec::new();
    let mut available: usize = 0;
    let mut bound: usize = 0;
    let mut failed: usize = 0;
    let mut i: usize = 0;
    proof {
        assert(issue_views(issues@) =~= pvs_issues(lang, pvs@.take(0)));
    }
    while i < pvs.len()
        invariant
            i <= pvs.len(),
            available == count_pv_phase(pvs@.take(i as int), "Available"@),
            bound == count_pv_phase(pvs@.take(i as int), "Bound"@),
            failed == count_pv_phase(pvs@.take(i as int), "Failed"@),
            available <= i,
            bound <= i,
            failed <= i,
            issue_views(issues@) == pvs_issues(lang, pvs@.take(i as int)),
        decreases pvs.len() - i,
    {
        proof {
            assert(pvs@.take(i as int + 1).drop_last() =~= pvs@.take(i as int));
            reveal_strlit("Available");
            reveal_strlit("Bound");
            reveal_strlit("Failed");
            assert("Available"@[0] != "Bound"@[0]);
            assert("Available"@[0] != "Failed"@[0]);
            assert("Bound"@[0] != "Failed"@[0]);
        }
        let pv = &pvs[i];
        if opt_eq(&pv.phase, "Available") {
            available = available + 1;
        } else if opt_eq(&pv.phase, "Bound") {
            bound = bound + 1;
        } else if opt_eq(&pv.phase, "Failed") {
            failed = failed + 1;
        }
        scan_pv(lang, pv, &mut issues);
        i = i + 1;
    }
    proof {
        assert(pvs@.take(pvs.len() as int) =~= pvs@);
    }
    let ghost after_pvs = issue_views(issues@);
    let mut pvc_bound: usize = 0;
    let mut pvc_pending: usize = 0;
    let mut j: usize = 0;
    proof {
        assert(issue_views(issues@) =~= after_pvs + pvcs_issues(lang, pvcs@.take(0)));
    }
    while j < pvcs.len()
        invariant
            j <= pvcs.len(),
            pvc_bound == count_pvc_phase(pvcs@.take(j as int), "Bound"@),
            pvc_pending == count_pvc_phase(pvcs@.take(j as int), "Pending"@),
            pvc_bound <= j,
            pvc_pending <= j,
            issue_views(issues@) == after_pvs + pvcs_issues(lang, pvcs@.take(j as int)),
        decreases pvcs.len() - j,
    {
        proof {
            assert(pvcs@.take(j as int + 1).drop_last() =~= pvcs@.take(j as int));
            reveal_strlit("Bound");
            reveal_strlit("Pending");
            assert("Bound"@[0] != "Pending"@[0]);
        }
        let c = &pvcs[j];
        if opt_eq(&c.phase, "Bound") {
            pvc_bound = pvc_bound + 1;
        } else if opt_eq(&c.phase, "Pending") {
            pvc_pending = pvc_pending + 1;
        }
        scan_pvc(lang, c, &mut issues);
        proof {
            assert(issue_views(issues@) =~= after_pvs + pvcs_issues(lang, pvcs@.take(j as int + 1)));
        }
        j = j + 1;
    }
    proof {
        assert(pvcs@.take(pvcs.len() as int) =~= pvcs@);
    }
    let ghost after_pvcs = issue_views(issues@);
    let mut defaults: usize = 0;
    let mut k: usize = 0;
    proof {
        assert(issue_views(issues@) =~= after_pvcs + scs_issues(lang, scs@.take(0)));
    }
    while k < scs.len()
        invariant
            k <= scs.len(),
            defaults == count_default_classes(scs@.take(k as int)),
            defaults <= k,
            issue_views(issues@) == after_pvcs + scs_issues(lang, scs@.take(k as int)),
        decreases scs.len() - k,
    {
        proof {
            assert(scs@.take(k as int + 1).drop_last() =~= scs@.take(k as int));
        }
        let sc = &scs[k];
        if opt_eq(&sc.default_annotation, "true") {
            defaults = defaults + 1;
        }
        scan_sc(lang, sc, &mut issues);
        proof {
            assert(issue_views(issues@) =~= after_pvcs + scs_issues(lang, scs@.take(k as int + 1)));
        }
        k = k + 1;
    }
    proof {
        assert(scs@.take(scs.len() as int) =~= scs@);
    }
    let ghost after_scs = issue_views(issues@);
    if defaults == 0 {
        let issue = make_global_issue(
            IssueSeverity::Warning,
            "StorageClass",
            owned(lang.t("No default storage class configured", "未配置默认存储类")),
            lang.t(
                "Configure a default storage class for automatic PV provisioning",
                "配置默认存储类以实现 PV 自动供应",
            ),
            "409",
        );
        push_issue(&mut issues, issue);
    } else if defaults > 1 {
        let n = u64_to_string(defaults as u64);
        let issue = make_global_issue(
            IssueSeverity::Warning,
            "StorageClass",
            lang_fmt1(
                lang,
                "{} default storage classes configured",
                "配置了 {} 个默认存储类",
                n.as_str(),
            ),
            lang.t(
                "Only one storage class should be marked as default",
                "只能将一个存储类标记为默认",
            ),
            "410",
        );
        push_issue(&mut issues, issue);
    }
    proof {
        assert(issue_views(issues@) =~= after_scs + default_class_issues(lang, defaults as nat));
    }
    StorageScan {
        total_pvs: pvs.len(),
        available_pvs: available,
        bound_pvs: bound,
        failed_pvs: failed,
        total_pvcs: pvcs.len(),
        bound_pvcs: pvc_bound,
        pending_pvcs: pvc_pending,
        total_storage_classes: scs.len(),
        default_storage_classes: defaults,
        issues,
    }
}


/// Volumes in the available, bound and failed phases are at most all
/// volumes, and bound or pending claims at most all claims: the health
/// ratios of the storage checks are at most one.
pub proof fn law_storage_counts_bounded(pvs: Seq<PvInfo>, pvcs: Seq<PvcInfo>)
    ensures
        count_pv_phase(pvs, "Available"@) + count_pv_phase(pvs, "Bound"@) + count_pv_phase(
            pvs,
            "Failed"@,
        ) <= pvs.len(),
        count_pvc_phase(pvcs, "Bound"@) + count_pvc_phase(pvcs, "Pending"@) <= pvcs.len(),
    decreases pvs.len() + pvcs.len(),
{
    reveal_strlit("Available");
    reveal_strlit("Bound");
    reveal_strlit("Failed");
    reveal_strlit("Pending");
    assert("Available"@[0] != "Bound"@[0]);
    assert("Available"@[0] != "Failed"@[0]);
    assert("Bound"@[0] != "Failed"@[0]);
    assert("Bound"@[0] != "Pending"@[0]);
    if pvs.len() > 0 {
        law_storage_counts_bounded(pvs.drop_last(), pvcs);
    } else if pvcs.len() > 0 {
        law_storage_counts_bounded(pvs, pvcs.drop_last());
    }
}


/// Score of the storage class configuration: full with exactly one
/// default class, 80 with classes but not one default, 60 with none.
pub fn storage_class_score(total_classes: usize, default_classes: usize) -> (r: u32)
    ensures
        r == (if total_classes > 0 && default_classes == 1 {
            100u32
        } else if total_classes > 0 {
            80u32
        } else {
            60u32
        }),
{
    if total_classes > 0 && default_classes == 1 {
        100
    } else if total_classes > 0 {
        80
    } else {
        60
    }
}

} // verus!
