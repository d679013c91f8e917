//! Pod status inspection: phases, conditions, container states and restart
//! counts of the listed pods, turned into issues, container state rows and
//! the counts that the pod checks are scored on.

use vstd::prelude::*;

use crate::inspections::common::{
    empty_or, issue_view, issue_views, join_ref, make_issue, opt_seq, or_default, push_issue, str_or,
    IssueSpec,
};
use crate::inspections::scoring_excluded;
use crate::inspections::is_scoring_excluded_namespace;
use crate::inspections::types::{Issue, IssueSeverity, PodContainerStateRow};
use crate::utils::lang::{fill, lang_fmt2, lang_fmt3, lang_fmt4, lang_fmt5, pick, Lang};
use crate::utils::text::{dec, dec_int, i64_to_string, join, join_strings, owned, push_str, str_eq, u64_to_string};

verus! {

/// A condition of a pod (`type`, `status`, optional reason and message).
#[derive(Debug, Clone)]
pub struct PodConditionInfo {
    pub type_: String,
    pub status: String,
    pub reason: Option<String>,
    pub message: Option<String>,
}

/// The `waiting` state of a container.
#[derive(Debug, Clone)]
pub struct WaitingInfo {
    pub reason: Option<String>,
    pub message: Option<String>,
}

/// The `terminated` state of a container.
#[derive(Debug, Clone)]
pub struct TerminatedInfo {
    pub reason: Option<String>,
    pub exit_code: i32,
}

/// Status of one container (init or main).
#[derive(Debug, Clone)]
pub struct ContainerStatusInfo {
    pub name: String,
    pub restart_count: i32,
    pub waiting: Option<WaitingInfo>,
    pub terminated: Option<TerminatedInfo>,
}

/// Status of a pod.
#[derive(Debug, Clone)]
pub struct PodStatusInfo {
    pub phase: Option<String>,
    pub conditions: Option<Vec<PodConditionInfo>>,
    pub init_container_statuses: Option<Vec<ContainerStatusInfo>>,
    pub container_statuses: Option<Vec<ContainerStatusInfo>>,
}

/// What the pod inspection reads of a pod.
#[derive(Debug, Clone)]
pub struct PodInfo {
    pub name: Option<String>,
    pub namespace: Option<String>,
    pub status: Option<PodStatusInfo>,
}

/// Outcome of scanning the pods: counts over the scored pods (namespaces
/// excluded from scoring left out), issues, container state rows, and how
/// often each container state reason occurs.
#[derive(Debug, Clone)]
pub struct PodScan {
    pub total_pods: usize,
    pub running_pods: usize,
    pub failed_pods: usize,
    pub pending_pods: usize,
    pub pods_with_restarts: usize,
    pub issues: Vec<Issue>,
    pub container_states: Vec<PodContainerStateRow>,
    pub reason_counts: Vec<(String, usize)>,
}

/// A container state row as plain values.
pub type StateRowSpec = (Seq<char>, Seq<char>, Seq<char>, Seq<char>, Seq<char>);

pub open spec fn row_view(r: PodContainerStateRow) -> StateRowSpec {
    (r.pod_ref@, r.container_name@, r.state_kind@, r.reason@, r.detail@)
}

pub open spec fn row_views(s: Seq<PodContainerStateRow>) -> Seq<StateRowSpec> {
    s.map_values(|r: PodContainerStateRow| row_view(r))
}

// ---------------------------------------------------------------------------
// Reading a pod
// ---------------------------------------------------------------------------

pub open spec fn pod_ns(p: PodInfo) -> Seq<char> {
    or_default(p.namespace, "default"@)
}

pub open spec fn pod_name(p: PodInfo) -> Seq<char> {
    or_default(p.name, "unknown"@)
}

/// `namespace/name` of a pod.
pub open spec fn pod_ref(p: PodInfo) -> Seq<char> {
    pod_ns(p) + "/"@ + pod_name(p)
}

/// Init container statuses followed by the main ones.
pub open spec fn statuses_of(st: PodStatusInfo) -> Seq<ContainerStatusInfo> {
    opt_seq(st.init_container_statuses) + opt_seq(st.container_statuses)
}

/// Whether the phase of a pod is the given one.
pub open spec fn phase_is(p: PodInfo, ph: Seq<char>) -> bool {
    &&& p.status is Some
    &&& p.status->0.phase is Some
    &&& p.status->0.phase->0@ == ph
}

// ---------------------------------------------------------------------------
// Issue codes of container states
// ---------------------------------------------------------------------------

pub open spec fn state_rule_id(state_kind: Seq<char>, reason: Seq<char>) -> Seq<char> {
    if state_kind == "waiting"@ {
        if reason == "ImagePullBackOff"@ {
            "105"@
        } else if reason == "ErrImagePull"@ {
            "106"@
        } else if reason == "CrashLoopBackOff"@ {
            "107"@
        } else if reason == "ContainerCreating"@ {
            "108"@
        } else if reason == "CreateContainerConfigError"@ {
            "109"@
        } else {
            "104"@
        }
    } else if reason == "OOMKilled"@ {
        "110"@
    } else {
        "111"@
    }
}

/// Issue code of a container state: a known waiting reason has its own code
/// (unknown ones 104); a terminated container is 110 when OOM-killed, else 111.
pub fn container_state_reason_to_rule_id(state_kind: &str, reason: &str) -> (r: &'static str)
    ensures
        r@ == state_rule_id(state_kind@, reason@),
{
    if str_eq(state_kind, "waiting") {
        if str_eq(reason, "ImagePullBackOff") {
            "105"
        } else if str_eq(reason, "ErrImagePull") {
            "106"
        } else if str_eq(reason, "CrashLoopBackOff") {
            "107"
        } else if str_eq(reason, "ContainerCreating") {
            "108"
        } else if str_eq(reason, "CreateContainerConfigError") {
            "109"
        } else {
            "104"
        }
    } else if str_eq(reason, "OOMKilled") {
        "110"
    } else {
        "111"
    }
}

// ---------------------------------------------------------------------------
// Issues of a pod
// ---------------------------------------------------------------------------

pub open spec fn is_not_ready(c: PodConditionInfo) -> bool {
    c.type_@ == "Ready"@ && c.status@ == "False"@
}

pub open spec fn is_unschedulable(c: PodConditionInfo) -> bool {
    c.type_@ == "PodScheduled"@ && c.status@ == "False"@
}

/// The first `Ready=False` condition.
pub open spec fn first_not_ready(cs: Seq<PodConditionInfo>) -> Option<PodConditionInfo>
    decreases cs.len(),
{
    if cs.len() == 0 {
        None
    } else if is_not_ready(cs[0]) {
        Some(cs[0])
    } else {
        first_not_ready(cs.drop_first())
    }
}

pub open spec fn not_ready_issue(lang: Lang, p: PodInfo, c: PodConditionInfo) -> IssueSpec {
    let reason = or_default(c.reason, "NotReady"@);
    let msg = or_default(c.message, ""@);
    let desc = if msg.len() == 0 {
        fill(
            pick(lang, "Pod {}/{} is Running but not Ready ({})"@, "Pod {}/{} 正在运行但未就绪（{}）"@),
            seq![pod_ns(p), pod_name(p), reason],
        )
    } else {
        fill(
            pick(
                lang,
                "Pod {}/{} is Running but not Ready ({}): {}"@,
                "Pod {}/{} 正在运行但未就绪（{}）：{}"@,
            ),
            seq![pod_ns(p), pod_name(p), reason, msg],
        )
    };
    (
        IssueSeverity::Critical,
        "Pod"@,
        desc,
        Some(pod_ref(p)),
        pick(
            lang,
            "Check readiness probes, container logs, and pod events (e.g. kubectl describe pod)"@,
            "检查就绪探针、容器日志和 Pod 事件（例如 kubectl describe pod）"@,
        ),
        Some("112"@),
    )
}

pub open spec fn failed_issue(lang: Lang, p: PodInfo) -> IssueSpec {
    (
        IssueSeverity::Critical,
        "Pod"@,
        fill(
            pick(lang, "Pod {}/{} is in Failed state"@, "Pod {}/{} 处于失败状态"@),
            seq![pod_ns(p), pod_name(p)],
        ),
        Some(pod_ref(p)),
        pick(lang, "Check pod logs and events"@, "检查 Pod 日志和事件"@),
        Some("101"@),
    )
}

pub open spec fn unschedulable_issue(lang: Lang, p: PodInfo) -> IssueSpec {
    (
        IssueSeverity::Warning,
        "Pod"@,
        fill(
            pick(lang, "Pod {}/{} cannot be scheduled"@, "Pod {}/{} 无法调度"@),
            seq![pod_ns(p), pod_name(p)],
        ),
        Some(pod_ref(p)),
        pick(lang, "Check resource requests and node capacity"@, "检查资源请求和节点容量"@),
        Some("102"@),
    )
}

/// One issue per `PodScheduled=False` condition.
pub open spec fn unschedulable_issues(lang: Lang, p: PodInfo, cs: Seq<PodConditionInfo>) -> Seq<
    IssueSpec,
>
    decreases cs.len(),
{
    if cs.len() == 0 {
        seq![]
    } else {
        unschedulable_issues(lang, p, cs.drop_last()) + if is_unschedulable(cs.last()) {
            seq![unschedulable_issue(lang, p)]
        } else {
            seq![]
        }
    }
}

/// Issues from the phase: a running pod that is not ready (first such
/// condition), a failed pod, a pending pod that cannot be scheduled.
pub open spec fn phase_issues(lang: Lang, p: PodInfo, st: PodStatusInfo) -> Seq<IssueSpec> {
    let cs = opt_seq(st.conditions);
    match st.phase {
        Some(ph) => if ph@ == "Running"@ {
            match first_not_ready(cs) {
                Some(c) => seq![not_ready_issue(lang, p, c)],
                None => seq![],
            }
        } else if ph@ == "Failed"@ {
            seq![failed_issue(lang, p)]
        } else if ph@ == "Pending"@ {
            unschedulable_issues(lang, p, cs)
        } else {
            seq![]
        },
        None => seq![],
    }
}

pub open spec fn waiting_reason(w: WaitingInfo) -> Seq<char> {
    or_default(w.reason, "Waiting"@)
}

pub open spec fn terminated_reason(t: TerminatedInfo) -> Seq<char> {
    or_default(t.reason, "Terminated"@)
}

pub open spec fn waiting_issue(lang: Lang, p: PodInfo, c: ContainerStatusInfo, w: WaitingInfo) -> IssueSpec {
    let reason = waiting_reason(w);
    let msg = or_default(w.message, ""@);
    let desc = if msg.len() == 0 {
        fill(
            pick(lang, "Pod {}/{} has container {} in state {}"@, "Pod {}/{} 的容器 {} 处于 {} 状态"@),
            seq![pod_ns(p), pod_name(p), c.name@, reason],
        )
    } else {
        fill(
            pick(
                lang,
                "Pod {}/{} has container {} in state {}: {}"@,
                "Pod {}/{} 的容器 {} 处于 {} 状态：{}"@,
            ),
            seq![pod_ns(p), pod_name(p), c.name@, reason, msg],
        )
    };
    (
        IssueSeverity::Critical,
        "Container"@,
        desc,
        Some(pod_ref(p)),
        pick(
            lang,
            "Check image, pull secrets, and pod events (e.g. kubectl describe pod)"@,
            "检查镜像、拉取凭据和 Pod 事件（例如 kubectl describe pod）"@,
        ),
        Some(state_rule_id("waiting"@, reason)),
    )
}

pub open spec fn terminated_issue(
    lang: Lang,
    p: PodInfo,
    c: ContainerStatusInfo,
    t: TerminatedInfo,
) -> IssueSpec {
    let reason = terminated_reason(t);
    (
        IssueSeverity::Critical,
        "Container"@,
        fill(
            pick(
                lang,
                "Pod {}/{} container {} terminated: reason={}, exit_code={}"@,
                "Pod {}/{} 的容器 {} 已终止：reason={}, exit_code={}"@,
            ),
            seq![pod_ns(p), pod_name(p), c.name@, reason, dec_int(t.exit_code as int)],
        ),
        Some(pod_ref(p)),
        pick(lang, "Check container logs and events"@, "检查容器日志和事件"@),
        Some(state_rule_id("terminated"@, reason)),
    )
}

/// Issues of one container's state: waiting, then terminated with a
/// non-zero exit code.
pub open spec fn state_issues(lang: Lang, p: PodInfo, c: ContainerStatusInfo) -> Seq<IssueSpec> {
    (match c.waiting {
        Some(w) => seq![waiting_issue(lang, p, c, w)],
        None => seq![],
    }) + (match c.terminated {
        Some(t) => if t.exit_code != 0 {
            seq![terminated_issue(lang, p, c, t)]
        } else {
            seq![]
        },
        None => seq![],
    })
}

pub open spec fn all_state_issues(lang: Lang, p: PodInfo, cs: Seq<ContainerStatusInfo>) -> Seq<
    IssueSpec,
>
    decreases cs.len(),
{
    if cs.len() == 0 {
        seq![]
    } else {
        all_state_issues(lang, p, cs.drop_last()) + state_issues(lang, p, cs.last())
    }
}

/// Severity of a restart count: up to 3 Info, up to 10 Warning, above that
/// Critical.
pub open spec fn restart_severity(r: i32) -> IssueSeverity {
    if r <= 3 {
        IssueSeverity::Info
    } else if r <= 10 {
        IssueSeverity::Warning
    } else {
        IssueSeverity::Critical
    }
}

/// A container that restarted gives an issue (none for zero restarts).
pub open spec fn restart_issues(lang: Lang, p: PodInfo, c: ContainerStatusInfo) -> Seq<IssueSpec> {
    if c.restart_count == 0 {
        seq![]
    } else {
        seq![
            (
                restart_severity(c.restart_count),
                "Container"@,
                fill(
                    pick(
                        lang,
                        "Container {} in pod {}/{} has {} restarts"@,
                        "Pod {}/{} 中的容器 {} 已重启 {} 次"@,
                    ),
                    seq![c.name@, pod_ns(p), pod_name(p), dec_int(c.restart_count as int)],
                ),
                Some(pod_ref(p)),
                pick(
                    lang,
                    "Investigate container crashes and resource limits"@,
                    "调查容器崩溃和资源限制"@,
                ),
                Some("103"@),
            ),
        ]
    }
}

pub open spec fn all_restart_issues(lang: Lang, p: PodInfo, cs: Seq<ContainerStatusInfo>) -> Seq<
    IssueSpec,
>
    decreases cs.len(),
{
    if cs.len() == 0 {
        seq![]
    } else {
        all_restart_issues(lang, p, cs.drop_last()) + restart_issues(lang, p, cs.last())
    }
}

/// All issues of a pod, in the order the inspection finds them.
pub open spec fn pod_issues(lang: Lang, p: PodInfo) -> Seq<IssueSpec> {
    match p.status {
        Some(st) => phase_issues(lang, p, st) + all_state_issues(lang, p, statuses_of(st))
            + all_restart_issues(lang, p, statuses_of(st)),
        None => seq![],
    }
}

pub open spec fn pods_issues(lang: Lang, ps: Seq<PodInfo>) -> Seq<IssueSpec>
    decreases ps.len(),
{
    if ps.len() == 0 {
        seq![]
    } else {
        pods_issues(lang, ps.drop_last()) + pod_issues(lang, ps.last())
    }
}

// ---------------------------------------------------------------------------
// Container state rows
// ---------------------------------------------------------------------------

pub open spec fn state_rows(p: PodInfo, c: ContainerStatusInfo) -> Seq<StateRowSpec> {
    (match c.waiting {
        Some(w) => seq![
            (pod_ref(p), c.name@, "waiting"@, waiting_reason(w), or_default(w.message, ""@)),
        ],
        None => seq![],
    }) + (match c.terminated {
        Some(t) => if t.exit_code != 0 {
            seq![
                (
                    pod_ref(p),
                    c.name@,
                    "terminated"@,
                    terminated_reason(t),
                    "exit_code="@ + dec_int(t.exit_code as int),
                ),
            ]
        } else {
            seq![]
        },
        None => seq![],
    })
}

pub open spec fn all_state_rows(p: PodInfo, cs: Seq<ContainerStatusInfo>) -> Seq<StateRowSpec>
    decreases cs.len(),
{
    if cs.len() == 0 {
        seq![]
    } else {
        all_state_rows(p, cs.drop_last()) + state_rows(p, cs.last())
    }
}

pub open spec fn pod_rows(p: PodInfo) -> Seq<StateRowSpec> {
    match p.status {
        Some(st) => all_state_rows(p, statuses_of(st)),
        None => seq![],
    }
}

pub open spec fn pods_rows(ps: Seq<PodInfo>) -> Seq<StateRowSpec>
    decreases ps.len(),
{
    if ps.len() == 0 {
        seq![]
    } else {
        pods_rows(ps.drop_last()) + pod_rows(ps.last())
    }
}

// ---------------------------------------------------------------------------
// Counts
// ---------------------------------------------------------------------------

pub open spec fn scored(p: PodInfo) -> bool {
    !scoring_excluded(pod_ns(p))
}

/// Whether some container of the pod restarted more than three times.
pub open spec fn has_excessive_restarts(p: PodInfo) -> bool {
    &&& p.status is Some
    &&& exists|i: int|
        0 <= i < statuses_of(p.status->0).len() && (#[trigger] statuses_of(p.status->0)[i]).restart_count
            > 3
}

/// Number of scored pods.
pub open spec fn count_scored(ps: Seq<PodInfo>) -> nat
    decreases ps.len(),
{
    if ps.len() == 0 {
        0
    } else {
        count_scored(ps.drop_last()) + if scored(ps.last()) {
            1nat
        } else {
            0nat
        }
    }
}

/// Number of scored pods in the given phase.
pub open spec fn count_phase(ps: Seq<PodInfo>, ph: Seq<char>) -> nat
    decreases ps.len(),
{
    if ps.len() == 0 {
        0
    } else {
        count_phase(ps.drop_last(), ph) + if scored(ps.last()) && phase_is(ps.last(), ph) {
            1nat
        } else {
            0nat
        }
    }
}

/// Number of scored pods with a container that restarted more than three
/// times.
pub open spec fn count_excessive(ps: Seq<PodInfo>) -> nat
    decreases ps.len(),
{
    if ps.len() == 0 {
        0
    } else {
        count_excessive(ps.drop_last()) + if scored(ps.last()) && has_excessive_restarts(
            ps.last(),
        ) {
            1nat
        } else {
            0nat
        }
    }
}

/// Number of container state rows with the given reason.
pub open spec fn reason_count(rows: Seq<StateRowSpec>, reason: Seq<char>) -> nat
    decreases rows.len(),
{
    if rows.len() == 0 {
        0
    } else {
        reason_count(rows.drop_last(), reason) + if rows.last().3 == reason {
            1nat
        } else {
            0nat
        }
    }
}

/// The reasons of the rows, each once, in order of first appearance.
pub open spec fn distinct_reasons(rows: Seq<StateRowSpec>) -> Seq<Seq<char>>
    decreases rows.len(),
{
    if rows.len() == 0 {
        seq![]
    } else {
        let prev = distinct_reasons(rows.drop_last());
        if prev.contains(rows.last().3) {
            prev
        } else {
            prev.push(rows.last().3)
        }
    }
}

/// Everything the scan states of its input.
pub open spec fn scan_matches(lang: Lang, pods: Seq<PodInfo>, s: PodScan) -> bool {
    &&& s.total_pods == count_scored(pods)
    &&& s.running_pods == count_phase(pods, "Running"@)
    &&& s.failed_pods == count_phase(pods, "Failed"@)
    &&& s.pending_pods == count_phase(pods, "Pending"@)
    &&& s.pods_with_restarts == count_excessive(pods)
    &&& issue_views(s.issues@) == pods_issues(lang, pods)
    &&& row_views(s.container_states@) == pods_rows(pods)
    &&& s.reason_counts@.map_values(|e: (String, usize)| e.0@) == distinct_reasons(pods_rows(pods))
    &&& forall|i: int|
        0 <= i < s.reason_counts.len() ==> #[trigger] s.reason_counts@[i].1 == reason_count(
            pods_rows(pods),
            s.reason_counts@[i].0@,
        )
}

// ---------------------------------------------------------------------------
// Scanning
// ---------------------------------------------------------------------------


/// Issues from the phase and conditions of a pod.
#[verifier::loop_isolation(false)]
fn scan_phase(
    lang: Lang,
    p: &PodInfo,
    st: &PodStatusInfo,
    ns: &str,
    name: &str,
    out: &mut Vec<Issue>,
)
    requires
        ns@ == pod_ns(*p),
        name@ == pod_name(*p),
    ensures
        issue_views(final(out)@) == issue_views(old(out)@) + phase_issues(lang, *p, *st),
{
    let empty: Vec<PodConditionInfo> = Vec::new();
    let cs = empty_or(&st.conditions, &empty);
    let ghost start = issue_views(out@);
    let phase = match &st.phase {
        Some(ph) => ph.as_str(),
        None => {
            proof {
                assert(issue_views(out@) =~= start + seq![]);
            }
            return ;
        },
    };
    if str_eq(phase, "Running") {
        let mut i: usize = 0;
        proof {
            assert(cs@.skip(0) =~= cs@);
        }
        while i < cs.len()
            invariant
                i <= cs.len(),
                first_not_ready(cs@) == first_not_ready(cs@.skip(i as int)),
                issue_views(out@) == start,
            decreases cs.len() - i,
        {
            proof {
                assert(cs@.skip(i as int)[0] == cs@[i as int]);
                assert(cs@.skip(i as int).drop_first() =~= cs@.skip(i as int + 1));
            }
            let c = &cs[i];
            if str_eq(c.type_.as_str(), "Ready") && str_eq(c.status.as_str(), "False") {
                let reason = str_or(&c.reason, "NotReady");
                let msg = str_or(&c.message, "");
                let desc = if msg.is_empty() {
                    lang_fmt3(
                        lang,
                        "Pod {}/{} is Running but not Ready ({})",
                        "Pod {}/{} 正在运行但未就绪（{}）",
                        ns,
                        name,
                        reason,
                    )
                } else {
                    lang_fmt4(
                        lang,
                        "Pod {}/{} is Running but not Ready ({}): {}",
                        "Pod {}/{} 正在运行但未就绪（{}）：{}",
                        ns,
                        name,
                        reason,
                        msg,
                    )
                };
                let issue = make_issue(
                    IssueSeverity::Critical,
                    "Pod",
                    desc,
                    join_ref(ns, name),
                    lang.t(
                        "Check readiness probes, container logs, and pod events (e.g. kubectl describe pod)",
                        "检查就绪探针、容器日志和 Pod 事件（例如 kubectl describe pod）",
                    ),
                    "112",
                );
                push_issue(out, issue);
                proof {
                    assert(issue_views(out@) =~= start + seq![not_ready_issue(lang, *p, *c)]);
                }
                return ;
            }
            i = i + 1;
        }
        proof {
            assert(cs@.skip(i as int) =~= seq![]);
            assert(issue_views(out@) =~= start + seq![]);
        }
    } else if str_eq(phase, "Failed") {
        let issue = make_issue(
            IssueSeverity::Critical,
            "Pod",
            lang_fmt2(lang, "Pod {}/{} is in Failed state", "Pod {}/{} 处于失败状态", ns, name),
            join_ref(ns, name),
            lang.t("Check pod logs and events", "检查 Pod 日志和事件"),
            "101",
        );
        push_issue(out, issue);
        proof {
            assert(issue_views(out@) =~= start + seq![failed_issue(lang, *p)]);
        }
    } else if str_eq(phase, "Pending") {
        let mut i: usize = 0;
        proof {
            assert(issue_views(out@) =~= start + unschedulable_issues(lang, *p, cs@.take(0)));
        }
        while i < cs.len()
            invariant
                i <= cs.len(),
                ns@ == pod_ns(*p),
                name@ == pod_name(*p),
                issue_views(out@) == start + unschedulable_issues(lang, *p, cs@.take(i as int)),
            decreases cs.len() - i,
        {
            proof {
                assert(cs@.take(i as int + 1).drop_last() =~= cs@.take(i as int));
            }
            let c = &cs[i];
            if str_eq(c.type_.as_str(), "PodScheduled") && str_eq(c.status.as_str(), "False") {
                let issue = make_issue(
                    IssueSeverity::Warning,
                    "Pod",
                    lang_fmt2(lang, "Pod {}/{} cannot be scheduled", "Pod {}/{} 无法调度", ns, name),
                    join_ref(ns, name),
                    lang.t("Check resource requests and node capacity", "检查资源请求和节点容量"),
                    "102",
                );
                push_issue(out, issue);
            }
            proof {
                assert(issue_views(out@) =~= start + unschedulable_issues(
                    lang,
                    *p,
                    cs@.take(i as int + 1),
                ));
            }
            i = i + 1;
        }
        proof {
            assert(cs@.take(cs.len() as int) =~= cs@);
        }
    } else {
        proof {
            assert(issue_views(out@) =~= start + seq![]);
        }
    }
}


fn status_at<'a>(
    init: &'a Vec<ContainerStatusInfo>,
    main: &'a Vec<ContainerStatusInfo>,
    i: usize,
) -> (r: &'a ContainerStatusInfo)
    requires
        i < init.len() + main.len(),
    ensures
        *r == (init@ + main@)[i as int],
{
    if i < init.len() {
        &init[i]
    } else {
        &main[i - init.len()]
    }
}

fn push_row(rows: &mut Vec<PodContainerStateRow>, r: PodContainerStateRow)
    ensures
        row_views(final(rows)@) == row_views(old(rows)@).push(row_view(r)),
{
    let ghost before = rows@;
    rows.push(r);
    proof {
        assert(row_views(rows@) =~= row_views(before).push(row_view(r)));
    }
}

/// Issues and rows of one container's state.
fn scan_state(
    lang: Lang,
    p: &PodInfo,
    c: &ContainerStatusInfo,
    ns: &str,
    name: &str,
    issues: &mut Vec<Issue>,
    rows: &mut Vec<PodContainerStateRow>,
)
    requires
        ns@ == pod_ns(*p),
        name@ == pod_name(*p),
    ensures
        issue_views(final(issues)@) == issue_views(old(issues)@) + state_issues(lang, *p, *c),
        row_views(final(rows)@) == row_views(old(rows)@) + state_rows(*p, *c),
{
    let ghost i0 = issue_views(issues@);
    let ghost r0 = row_views(rows@);
    let ghost mut wi: Seq<IssueSpec> = seq![];
    let ghost mut wr: Seq<StateRowSpec> = seq![];
    if let Some(w) = &c.waiting {
        let reason = str_or(&w.reason, "Waiting");
        let msg = str_or(&w.message, "");
        let row = PodContainerStateRow {
            pod_ref: join_ref(ns, name),
            container_name: c.name.clone(),
            state_kind: owned("waiting"),
            reason: owned(reason),
            detail: owned(msg),
        };
        push_row(rows, row);
        let desc = if msg.is_empty() {
            lang_fmt4(
                lang,
                "Pod {}/{} has container {} in state {}",
                "Pod {}/{} 的容器 {} 处于 {} 状态",
                ns,
                name,
                c.name.as_str(),
                reason,
            )
        } else {
            lang_fmt5(
                lang,
                "Pod {}/{} has container {} in state {}: {}",
                "Pod {}/{} 的容器 {} 处于 {} 状态：{}",
                ns,
                name,
                c.name.as_str(),
                reason,
                msg,
            )
        };
        let rule = container_state_reason_to_rule_id("waiting", reason);
        let issue = make_issue(
            IssueSeverity::Critical,
            "Container",
            desc,
            join_ref(ns, name),
            lang.t(
                "Check image, pull secrets, and pod events (e.g. kubectl describe pod)",
                "检查镜像、拉取凭据和 Pod 事件（例如 kubectl describe pod）",
            ),
            rule,
        );
        push_issue(issues, issue);
        proof {
            wi = seq![waiting_issue(lang, *p, *c, *w)];
            wr = seq![
                (pod_ref(*p), c.name@, "waiting"@, waiting_reason(*w), or_default(w.message, ""@)),
            ];
            assert(issue_views(issues@) =~= i0 + wi);
            assert(row_views(rows@) =~= r0 + wr);
        }
    } else {
        proof {
            assert(issue_views(issues@) =~= i0 + wi);
            assert(row_views(rows@) =~= r0 + wr);
        }
    }
    let ghost i1 = issue_views(issues@);
    let ghost r1 = row_views(rows@);
    let ghost mut ti: Seq<IssueSpec> = seq![];
    let ghost mut tr: Seq<StateRowSpec> = seq![];
    if let Some(t) = &c.terminated {
        if t.exit_code != 0 {
            let reason = str_or(&t.reason, "Terminated");
            let code = i64_to_string(t.exit_code as i64);
            let mut detail = owned("exit_code=");
            push_str(&mut detail, code.as_str());
            let row = PodContainerStateRow {
                pod_ref: join_ref(ns, name),
                container_name: c.name.clone(),
                state_kind: owned("terminated"),
                reason: owned(reason),
                detail,
            };
            push_row(rows, row);
            let rule = container_state_reason_to_rule_id("terminated", reason);
            let desc = lang_fmt5(
                lang,
                "Pod {}/{} container {} terminated: reason={}, exit_code={}",
                "Pod {}/{} 的容器 {} 已终止：reason={}, exit_code={}",
                ns,
                name,
                c.name.as_str(),
                reason,
                code.as_str(),
            );
            let issue = make_issue(
                IssueSeverity::Critical,
                "Container",
                desc,
                join_ref(ns, name),
                lang.t("Check container logs and events", "检查容器日志和事件"),
                rule,
            );
            push_issue(issues, issue);
            proof {
                ti = seq![terminated_issue(lang, *p, *c, *t)];
                tr = seq![
                    (
                        pod_ref(*p),
                        c.name@,
                        "terminated"@,
                        terminated_reason(*t),
                        "exit_code="@ + dec_int(t.exit_code as int),
                    ),
                ];
                assert(issue_views(issues@) =~= i1 + ti);
                assert(row_views(rows@) =~= r1 + tr);
            }
        } else {
            proof {
                assert(issue_views(issues@) =~= i1 + ti);
                assert(row_views(rows@) =~= r1 + tr);
            }
        }
    } else {
        proof {
            assert(issue_views(issues@) =~= i1 + ti);
            assert(row_views(rows@) =~= r1 + tr);
        }
    }
    proof {
        assert(state_issues(lang, *p, *c) =~= wi + ti);
        assert(state_rows(*p, *c) =~= wr + tr);
        assert(issue_views(issues@) =~= i0 + (wi + ti));
        assert(row_views(rows@) =~= r0 + (wr + tr));
    }
}

/// The restart issue of one container, if it restarted.
fn scan_restarts(
    lang: Lang,
    p: &PodInfo,
    c: &ContainerStatusInfo,
    ns: &str,
    name: &str,
    issues: &mut Vec<Issue>,
)
    requires
        ns@ == pod_ns(*p),
        name@ == pod_name(*p),
    ensures
        issue_views(final(issues)@) == issue_views(old(issues)@) + restart_issues(lang, *p, *c),
{
    let ghost i0 = issue_views(issues@);
    let r = c.restart_count;
    if r == 0 {
        proof {
            assert(issue_views(issues@) =~= i0 + seq![]);
        }
        return ;
    }
    let severity = if r <= 3 {
        IssueSeverity::Info
    } else if r <= 10 {
        IssueSeverity::Warning
    } else {
        IssueSeverity::Critical
    };
    let count = i64_to_string(r as i64);
    let issue = make_issue(
        severity,
        "Container",
        lang_fmt4(
            lang,
            "Container {} in pod {}/{} has {} restarts",
            "Pod {}/{} 中的容器 {} 已重启 {} 次",
            c.name.as_str(),
            ns,
            name,
            count.as_str(),
        ),
        join_ref(ns, name),
        lang.t("Investigate container crashes and resource limits", "调查容器崩溃和资源限制"),
        "103",
    );
    push_issue(issues, issue);
    proof {
        assert(issue_views(issues@) =~= i0 + restart_issues(lang, *p, *c));
    }
}


proof fn lemma_state_issues_concat(lang: Lang, p: PodInfo, a: Seq<ContainerStatusInfo>, b: Seq<ContainerStatusInfo>)
    ensures
        all_state_issues(lang, p, a + b) == all_state_issues(lang, p, a) + all_state_issues(lang, p, b),
        all_state_rows(p, a + b) == all_state_rows(p, a) + all_state_rows(p, b),
        all_restart_issues(lang, p, a + b) == all_restart_issues(lang, p, a) + all_restart_issues(lang, p, b),
    decreases b.len(),
{
    if b.len() == 0 {
        assert(a + b =~= a);
        assert(all_state_issues(lang, p, a) + seq![] =~= all_state_issues(lang, p, a));
        assert(all_state_rows(p, a) + seq![] =~= all_state_rows(p, a));
        assert(all_restart_issues(lang, p, a) + seq![] =~= all_restart_issues(lang, p, a));
    } else {
        lemma_state_issues_concat(lang, p, a, b.drop_last());
        assert((a + b).drop_last() =~= a + b.drop_last());
        assert((a + b).last() == b.last());
        assert(all_state_issues(lang, p, a + b) =~= all_state_issues(lang, p, a) + all_state_issues(lang, p, b));
        assert(all_state_rows(p, a + b) =~= all_state_rows(p, a) + all_state_rows(p, b));
        assert(all_restart_issues(lang, p, a + b) =~= all_restart_issues(lang, p, a) + all_restart_issues(lang, p, b));
    }
}

/// Issues and rows of the states of a list of containers.
fn scan_states(
    lang: Lang,
    p: &PodInfo,
    cs: &Vec<ContainerStatusInfo>,
    ns: &str,
    name: &str,
    issues: &mut Vec<Issue>,
    rows: &mut Vec<PodContainerStateRow>,
)
    requires
        ns@ == pod_ns(*p),
        name@ == pod_name(*p),
    ensures
        issue_views(final(issues)@) == issue_views(old(issues)@) + all_state_issues(lang, *p, cs@),
        row_views(final(rows)@) == row_views(old(rows)@) + all_state_rows(*p, cs@),
{
    let ghost i0 = issue_views(issues@);
    let ghost r0 = row_views(rows@);
    let mut i: usize = 0;
    proof {
        assert(issue_views(issues@) =~= i0 + all_state_issues(lang, *p, cs@.take(0)));
        assert(row_views(rows@) =~= r0 + all_state_rows(*p, cs@.take(0)));
    }
    while i < cs.len()
        invariant
            i <= cs.len(),
            ns@ == pod_ns(*p),
            name@ == pod_name(*p),
            issue_views(issues@) == i0 + all_state_issues(lang, *p, cs@.take(i as int)),
            row_views(rows@) == r0 + all_state_rows(*p, cs@.take(i as int)),
        decreases cs.len() - i,
    {
        proof {
            assert(cs@.take(i as int + 1).drop_last() =~= cs@.take(i as int));
        }
        scan_state(lang, p, &cs[i], ns, name, issues, rows);
        proof {
            assert(issue_views(issues@) =~= i0 + all_state_issues(lang, *p, cs@.take(i as int + 1)));
            assert(row_views(rows@) =~= r0 + all_state_rows(*p, cs@.take(i as int + 1)));
        }
        i = i + 1;
    }
    proof {
        assert(cs@.take(cs.len() as int) =~= cs@);
    }
}

/// Restart issues of a list of containers, and whether one of them
/// restarted more than three times.
fn scan_restart_list(
    lang: Lang,
    p: &PodInfo,
    cs: &Vec<ContainerStatusInfo>,
    ns: &str,
    name: &str,
    issues: &mut Vec<Issue>,
) -> (excessive: bool)
    requires
        ns@ == pod_ns(*p),
        name@ == pod_name(*p),
    ensures
        issue_views(final(issues)@) == issue_views(old(issues)@) + all_restart_issues(lang, *p, cs@),
        excessive == exists|k: int| 0 <= k < cs.len() && (#[trigger] cs@[k]).restart_count > 3,
{
    let ghost i0 = issue_views(issues@);
    let mut excessive = false;
    let mut j: usize = 0;
    proof {
        assert(issue_views(issues@) =~= i0 + all_restart_issues(lang, *p, cs@.take(0)));
    }
    while j < cs.len()
        invariant
            j <= cs.len(),
            ns@ == pod_ns(*p),
            name@ == pod_name(*p),
            issue_views(issues@) == i0 + all_restart_issues(lang, *p, cs@.take(j as int)),
            excessive == exists|k: int| 0 <= k < j && (#[trigger] cs@[k]).restart_count > 3,
        decreases cs.len() - j,
    {
        proof {
            assert(cs@.take(j as int + 1).drop_last() =~= cs@.take(j as int));
        }
        if cs[j].restart_count > 3 {
            excessive = true;
        }
        scan_restarts(lang, p, &cs[j], ns, name, issues);
        proof {
            assert(issue_views(issues@) =~= i0 + all_restart_issues(lang, *p, cs@.take(j as int + 1)));
        }
        j = j + 1;
    }
    proof {
        assert(cs@.take(cs.len() as int) =~= cs@);
    }
    excessive
}

/// Issues and rows of one pod, and whether it has a container that
/// restarted more than three times.
fn scan_pod(
    lang: Lang,
    p: &PodInfo,
    issues: &mut Vec<Issue>,
    rows: &mut Vec<PodContainerStateRow>,
) -> (excessive: bool)
    ensures
        issue_views(final(issues)@) == issue_views(old(issues)@) + pod_issues(lang, *p),
        row_views(final(rows)@) == row_views(old(rows)@) + pod_rows(*p),
        excessive == has_excessive_restarts(*p),
{
    let ghost i0 = issue_views(issues@);
    let ghost r0 = row_views(rows@);
    let st = match &p.status {
        Some(st) => st,
        None => {
            proof {
                assert(issue_views(issues@) =~= i0 + seq![]);
                assert(row_views(rows@) =~= r0 + seq![]);
            }
            return false;
        },
    };
    let ns = str_or(&p.namespace, "default");
    let name = str_or(&p.name, "unknown");
    scan_phase(lang, p, st, ns, name, issues);
    let empty_a: Vec<ContainerStatusInfo> = Vec::new();
    let empty_b: Vec<ContainerStatusInfo> = Vec::new();
    let init = empty_or(&st.init_container_statuses, &empty_a);
    let main = empty_or(&st.container_statuses, &empty_b);
    let ghost cs = statuses_of(*st);
    proof {
        lemma_state_issues_concat(lang, *p, init@, main@);
    }
    scan_states(lang, p, init, ns, name, issues, rows);
    scan_states(lang, p, main, ns, name, issues, rows);
    let e1 = scan_restart_list(lang, p, init, ns, name, issues);
    let e2 = scan_restart_list(lang, p, main, ns, name, issues);
    proof {
        assert(issue_views(issues@) =~= i0 + pod_issues(lang, *p));
        assert(row_views(rows@) =~= r0 + pod_rows(*p));
        if e1 {
            let k = choose|k: int| 0 <= k < init.len() && (#[trigger] init@[k]).restart_count > 3;
            assert(cs[k] == init@[k]);
        }
        if e2 {
            let k = choose|k: int| 0 <= k < main.len() && (#[trigger] main@[k]).restart_count > 3;
            assert(cs[init.len() + k] == main@[k]);
        }
        if has_excessive_restarts(*p) {
            let k = choose|k: int| 0 <= k < cs.len() && (#[trigger] cs[k]).restart_count > 3;
            if k < init.len() {
                assert(init@[k] == cs[k]);
            } else {
                assert(main@[k - init.len()] == cs[k]);
            }
        }
    }
    e1 || e2
}

proof fn lemma_reason_count_bound(rows: Seq<StateRowSpec>, reason: Seq<char>)
    ensures
        reason_count(rows, reason) <= rows.len(),
    decreases rows.len(),
{
    if rows.len() > 0 {
        lemma_reason_count_bound(rows.drop_last(), reason);
    }
}

proof fn lemma_distinct_reasons_unique(rows: Seq<StateRowSpec>)
    ensures
        distinct_reasons(rows).no_duplicates(),
        forall|i: int| 0 <= i < rows.len() ==> distinct_reasons(rows).contains(#[trigger] rows[i].3),
        forall|k: int|
            0 <= k < distinct_reasons(rows).len() ==> reason_count(
                rows,
                #[trigger] distinct_reasons(rows)[k],
            ) > 0,
    decreases rows.len(),
{
    if rows.len() > 0 {
        let prev = rows.drop_last();
        lemma_distinct_reasons_unique(prev);
        assert forall|i: int| 0 <= i < rows.len() implies distinct_reasons(rows).contains(
            #[trigger] rows[i].3,
        ) by {
            if i < rows.len() - 1 {
                assert(prev[i] == rows[i]);
                let w = choose|w: int|
                    0 <= w < distinct_reasons(prev).len() && distinct_reasons(prev)[w] == prev[i].3;
                if !distinct_reasons(prev).contains(rows.last().3) {
                    assert(distinct_reasons(rows)[w] == rows[i].3);
                }
            } else {
                if !distinct_reasons(prev).contains(rows.last().3) {
                    assert(distinct_reasons(rows)[distinct_reasons(prev).len() as int]
                        == rows.last().3);
                }
            }
        }
    }
}

/// Counts the rows of each reason, reasons in order of first appearance.
fn count_reasons(rows: &Vec<PodContainerStateRow>) -> (r: Vec<(String, usize)>)
    ensures
        r@.map_values(|e: (String, usize)| e.0@) == distinct_reasons(row_views(rows@)),
        forall|i: int|
            0 <= i < r.len() ==> #[trigger] r@[i].1 == reason_count(row_views(rows@), r@[i].0@),
{
    let ghost rv = row_views(rows@);
    let mut out: Vec<(String, usize)> = Vec::new();
    let mut i: usize = 0;
    while i < rows.len()
        invariant
            i <= rows.len(),
            rv == row_views(rows@),
            out@.map_values(|e: (String, usize)| e.0@) == distinct_reasons(rv.take(i as int)),
            forall|k: int|
                0 <= k < out.len() ==> #[trigger] out@[k].1 == reason_count(
                    rv.take(i as int),
                    out@[k].0@,
                ),
        decreases rows.len() - i,
    {
        let ghost pre = rv.take(i as int);
        let ghost cur = rv.take(i as int + 1);
        proof {
            assert(cur.drop_last() =~= pre);
            assert(cur.last() == row_view(rows@[i as int]));
            lemma_distinct_reasons_unique(pre);
        }
        let reason = &rows[i].reason;
        let mut k: usize = 0;
        let mut found: Option<usize> = None;
        while k < out.len()
            invariant
                k <= out.len(),
                found is Some ==> found->0 < out.len() && out@[found->0 as int].0@ == reason@,
                found is None ==> forall|m: int| 0 <= m < k ==> #[trigger] out@[m].0@ != reason@,
            decreases out.len() - k,
        {
            if found.is_none() && str_eq(out[k].0.as_str(), reason.as_str()) {
                found = Some(k);
            }
            k = k + 1;
        }
        let ghost names = out@.map_values(|e: (String, usize)| e.0@);
        match found {
            Some(f) => {
                proof {
                    lemma_reason_count_bound(pre, reason@);
                    assert(names[f as int] == reason@);
                }
                let e = out[f].1;
                let name = out[f].0.clone();
                let ghost old_out = out@;
                out.set(f, (name, e + 1));
                proof {
                    assert(out@.map_values(|e: (String, usize)| e.0@) =~= names);
                    assert(distinct_reasons(cur) == distinct_reasons(pre));
                    assert forall|m: int| 0 <= m < out.len() implies #[trigger] out@[m].1
                        == reason_count(cur, out@[m].0@) by {
                        if m != f {
                            assert(old_out[m] == out@[m]);
                            assert(names[m] == out@[m].0@);
                            assert(names.no_duplicates());
                            assert(out@[m].0@ != reason@);
                        }
                    }
                }
            },
            None => {
                proof {
                    assert(!names.contains(reason@)) by {
                        if names.contains(reason@) {
                            let w = choose|w: int| 0 <= w < names.len() && names[w] == reason@;
                            assert(out@[w].0@ == reason@);
                        }
                    }
                }
                let name = reason.clone();
                let ghost old_out = out@;
                out.push((name, 1));
                proof {
                    assert(out@.map_values(|e: (String, usize)| e.0@) =~= names.push(reason@));
                    assert forall|m: int| 0 <= m < out.len() implies #[trigger] out@[m].1
                        == reason_count(cur, out@[m].0@) by {
                        if m < old_out.len() {
                            assert(old_out[m] == out@[m]);
                            assert(names[m] == out@[m].0@);
                            assert(out@[m].0@ != reason@);
                        } else {
                            assert(reason_count(pre, reason@) == 0) by {
                                if reason_count(pre, reason@) > 0 {
                                    lemma_reason_present(pre, reason@);
                                }
                            }
                        }
                    }
                }
            },
        }
        i = i + 1;
    }
    proof {
        assert(rv.take(rows.len() as int) =~= rv);
    }
    out
}

proof fn lemma_reason_present(rows: Seq<StateRowSpec>, reason: Seq<char>)
    requires
        reason_count(rows, reason) > 0,
    ensures
        distinct_reasons(rows).contains(reason),
    decreases rows.len(),
{
    lemma_distinct_reasons_unique(rows);
    if rows.last().3 == reason {
        assert(rows[rows.len() - 1].3 == reason);
    } else {
        lemma_reason_present(rows.drop_last(), reason);
        let prev = distinct_reasons(rows.drop_last());
        let w = choose|w: int| 0 <= w < prev.len() && prev[w] == reason;
        if !prev.contains(rows.last().3) {
            assert(distinct_reasons(rows)[w] == reason);
        }
    }
}

/// Scans the listed pods: the counts over the scored pods, the issues, the
/// container state rows and the number of rows of each reason.
pub fn scan_pods(lang: Lang, pods: &Vec<PodInfo>) -> (r: PodScan)
    ensures
        scan_matches(lang, pods@, r),
{
    let mut issues: Vec<Issue> = Vec::new();
    let mut rows: Vec<PodContainerStateRow> = Vec::new();
    let mut total: usize = 0;
    let mut running: usize = 0;
    let mut failed: usize = 0;
    let mut pending: usize = 0;
    let mut restarts: usize = 0;
    let mut i: usize = 0;
    proof {
        assert(issue_views(issues@) =~= pods_issues(lang, pods@.take(0)));
        assert(row_views(rows@) =~= pods_rows(pods@.take(0)));
    }
    while i < pods.len()
        invariant
            i <= pods.len(),
            total == count_scored(pods@.take(i as int)),
            running == count_phase(pods@.take(i as int), "Running"@),
            failed == count_phase(pods@.take(i as int), "Failed"@),
            pending == count_phase(pods@.take(i as int), "Pending"@),
            restarts == count_excessive(pods@.take(i as int)),
            total <= i,
            running <= i,
            failed <= i,
            pending <= i,
            restarts <= i,
            issue_views(issues@) == pods_issues(lang, pods@.take(i as int)),
            row_views(rows@) == pods_rows(pods@.take(i as int)),
        decreases pods.len() - i,
    {
        let ghost pre = pods@.take(i as int);
        proof {
            assert(pods@.take(i as int + 1).drop_last() =~= pre);
            reveal_strlit("Running");
            reveal_strlit("Failed");
            reveal_strlit("Pending");
            assert("Running"@.len() == 7);
            assert("Running"@ != "Failed"@);
            assert("Running"@[0] != "Pending"@[0]);
            assert("Running"@ != "Pending"@);
            assert("Failed"@ != "Pending"@);
        }
        let p = &pods[i];
        let ns = str_or(&p.namespace, "default");
        let counted = !is_scoring_excluded_namespace(ns);
        let excessive = scan_pod(lang, p, &mut issues, &mut rows);
        if counted {
            total = total + 1;
            if excessive {
                restarts = restarts + 1;
            }
            if let Some(st) = &p.status {
                if let Some(ph) = &st.phase {
                    if str_eq(ph.as_str(), "Running") {
                        running = running + 1;
                    } else if str_eq(ph.as_str(), "Failed") {
                        failed = failed + 1;
                    } else if str_eq(ph.as_str(), "Pending") {
                        pending = pending + 1;
                    }
                }
            }
        }
        i = i + 1;
    }
    proof {
        assert(pods@.take(pods.len() as int) =~= pods@);
    }
    let reason_counts = count_reasons(&rows);
    PodScan {
        total_pods: total,
        running_pods: running,
        failed_pods: failed,
        pending_pods: pending,
        pods_with_restarts: restarts,
        issues,
        container_states: rows,
        reason_counts,
    }
}


/// `"<count> <reason>"` for each counted reason.
pub open spec fn reason_summary(rc: Seq<(String, usize)>) -> Seq<Seq<char>> {
    rc.map_values(|e: (String, usize)| dec(e.1 as nat) + " "@ + e.0@)
}

/// Details line of the pod health check.
pub open spec fn health_details_spec(lang: Lang, s: PodScan) -> Seq<char> {
    let counts = seq![
        dec(s.running_pods as nat),
        dec(s.failed_pods as nat),
        dec(s.pending_pods as nat),
        dec(s.total_pods as nat),
    ];
    if s.reason_counts.len() == 0 {
        fill(
            pick(
                lang,
                "Running: {}, Failed: {}, Pending: {}, Total: {}"@,
                "运行中：{}，失败：{}，等待中：{}，总数：{}"@,
            ),
            counts,
        )
    } else {
        fill(
            pick(
                lang,
                "Running: {}, Failed: {}, Pending: {}, Total: {}. Container states: {}"@,
                "运行中：{}，失败：{}，等待中：{}，总数：{}。容器状态：{}"@,
            ),
            counts.push(join(reason_summary(s.reason_counts@), ", "@)),
        )
    }
}

/// Details of the pod health check: the phase counts and, when containers
/// are waiting or terminated, how many of each reason.
pub fn pod_health_details(lang: Lang, s: &PodScan) -> (r: String)
    ensures
        r@ == health_details_spec(lang, *s),
{
    let running = u64_to_string(s.running_pods as u64);
    let failed = u64_to_string(s.failed_pods as u64);
    let pending = u64_to_string(s.pending_pods as u64);
    let total = u64_to_string(s.total_pods as u64);
    if s.reason_counts.len() == 0 {
        return lang_fmt4(
            lang,
            "Running: {}, Failed: {}, Pending: {}, Total: {}",
            "运行中：{}，失败：{}，等待中：{}，总数：{}",
            running.as_str(),
            failed.as_str(),
            pending.as_str(),
            total.as_str(),
        );
    }
    let mut parts: Vec<String> = Vec::new();
    let mut i: usize = 0;
    while i < s.reason_counts.len()
        invariant
            i <= s.reason_counts.len(),
            parts@.map_values(|x: String| x@) == reason_summary(s.reason_counts@.take(i as int)),
        decreases s.reason_counts.len() - i,
    {
        let mut part = u64_to_string(s.reason_counts[i].1 as u64);
        push_str(&mut part, " ");
        push_str(&mut part, s.reason_counts[i].0.as_str());
        let ghost before = parts@;
        proof {
            let e = s.reason_counts@[i as int];
            assert(part@ == dec(e.1 as nat) + " "@ + e.0@);
            assert(reason_summary(s.reason_counts@.take(i as int + 1)) =~= reason_summary(
                s.reason_counts@.take(i as int),
            ).push(dec(e.1 as nat) + " "@ + e.0@));
        }
        parts.push(part);
        proof {
            assert(parts@.map_values(|x: String| x@) =~= before.map_values(|x: String| x@).push(part@));
            assert(parts@.map_values(|x: String| x@) =~= reason_summary(
                s.reason_counts@.take(i as int + 1),
            ));
        }
        i = i + 1;
    }
    proof {
        assert(s.reason_counts@.take(s.reason_counts.len() as int) =~= s.reason_counts@);
    }
    let summary = join_strings(&parts, ", ");
    proof {
        let counts = seq![
            dec(s.running_pods as nat),
            dec(s.failed_pods as nat),
            dec(s.pending_pods as nat),
            dec(s.total_pods as nat),
        ];
        assert(counts.push(summary@) =~= seq![running@, failed@, pending@, total@, summary@]);
    }
    lang_fmt5(
        lang,
        "Running: {}, Failed: {}, Pending: {}, Total: {}. Container states: {}",
        "运行中：{}，失败：{}，等待中：{}，总数：{}。容器状态：{}",
        running.as_str(),
        failed.as_str(),
        pending.as_str(),
        total.as_str(),
        summary.as_str(),
    )
}

/// Details of the pod stability check: pods with excessive restarts out of
/// all scored pods.
pub fn pod_stability_details(lang: Lang, s: &PodScan) -> (r: String)
    ensures
        r@ == fill(
            pick(lang, "{}/{} pods with excessive restarts"@, "{}/{} 个 Pod 存在过度重启"@),
            seq![dec(s.pods_with_restarts as nat), dec(s.total_pods as nat)],
        ),
{
    let a = u64_to_string(s.pods_with_restarts as u64);
    let b = u64_to_string(s.total_pods as u64);
    lang_fmt2(
        lang,
        "{}/{} pods with excessive restarts",
        "{}/{} 个 Pod 存在过度重启",
        a.as_str(),
        b.as_str(),
    )
}


/// The phase counts never exceed the number of scored pods, nor does the
/// number of pods with excessive restarts: the health and stability
/// ratios are at most one.
pub proof fn law_pod_counts_bounded(pods: Seq<PodInfo>)
    ensures
        count_phase(pods, "Running"@) + count_phase(pods, "Failed"@) + count_phase(pods, "Pending"@)
            <= count_scored(pods),
        count_excessive(pods) <= count_scored(pods),
    decreases pods.len(),
{
    reveal_strlit("Running");
    reveal_strlit("Failed");
    reveal_strlit("Pending");
    assert("Running"@[0] != "Failed"@[0]);
    assert("Running"@[0] != "Pending"@[0]);
    assert("Failed"@[0] != "Pending"@[0]);
    if pods.len() > 0 {
        law_pod_counts_bounded(pods.drop_last());
    }
}


/// Pods in namespaces left out of scoring (`kube-system`, `cilium-secrets`)
/// never count: appending such pods to a pod list leaves every count the
/// scan makes unchanged, and so the health and stability scores computed
/// from them; their problems still appear among the issues.
pub proof fn law_excluded_pods_do_not_count(
    lang: Lang,
    pods: Seq<PodInfo>,
    extra: Seq<PodInfo>,
    s1: PodScan,
    s2: PodScan,
)
    requires
        forall|i: int| 0 <= i < extra.len() ==> scoring_excluded(pod_ns(#[trigger] extra[i])),
        scan_matches(lang, pods, s1),
        scan_matches(lang, pods + extra, s2),
    ensures
        s2.total_pods == s1.total_pods,
        s2.running_pods == s1.running_pods,
        s2.failed_pods == s1.failed_pods,
        s2.pending_pods == s1.pending_pods,
        s2.pods_with_restarts == s1.pods_with_restarts,
{
    law_excluded_pods_leave_counts(pods, extra, "Running"@);
    law_excluded_pods_leave_counts(pods, extra, "Failed"@);
    law_excluded_pods_leave_counts(pods, extra, "Pending"@);
}

/// Appending pods of namespaces left out of scoring to a pod list leaves
/// the number of scored pods, the number in any phase and the number with
/// excessive restarts unchanged.
pub proof fn law_excluded_pods_leave_counts(pods: Seq<PodInfo>, extra: Seq<PodInfo>, ph: Seq<char>)
    requires
        forall|i: int| 0 <= i < extra.len() ==> scoring_excluded(pod_ns(#[trigger] extra[i])),
    ensures
        count_scored(pods + extra) == count_scored(pods),
        count_phase(pods + extra, ph) == count_phase(pods, ph),
        count_excessive(pods + extra) == count_excessive(pods),
    decreases extra.len(),
{
    if extra.len() == 0 {
        assert(pods + extra =~= pods);
    } else {
        let shorter = extra.drop_last();
        assert forall|i: int| 0 <= i < shorter.len() implies scoring_excluded(pod_ns(#[trigger] shorter[i])) by {
            assert(shorter[i] == extra[i]);
        }
        law_excluded_pods_leave_counts(pods, shorter, ph);
        assert((pods + extra).drop_last() =~= pods + shorter);
        assert((pods + extra).last() == extra[extra.len() - 1]);
    }
}


/// Restart issues follow the documented tiers: no issue without restarts;
/// otherwise one issue with rule 103, of severity Info for 1 to 3
/// restarts, Warning for 4 to 10 and Critical above 10.
pub proof fn law_restart_issue_tiers(lang: Lang, p: PodInfo, c: ContainerStatusInfo)
    ensures
        c.restart_count == 0 ==> restart_issues(lang, p, c).len() == 0,
        c.restart_count != 0 ==> restart_issues(lang, p, c).len() == 1 && restart_issues(lang, p, c)[0].5 == Some(
            "103"@,
        ),
        1 <= c.restart_count <= 3 ==> restart_issues(lang, p, c)[0].0 == IssueSeverity::Info,
        4 <= c.restart_count <= 10 ==> restart_issues(lang, p, c)[0].0 == IssueSeverity::Warning,
        c.restart_count > 10 ==> restart_issues(lang, p, c)[0].0 == IssueSeverity::Critical,
{
}

/// The severity of a restart issue never falls as the restart count grows.
pub proof fn law_restart_severity_monotone(lang: Lang, p: PodInfo, c1: ContainerStatusInfo, c2: ContainerStatusInfo)
    requires
        0 < c1.restart_count <= c2.restart_count,
    ensures
        restart_issues(lang, p, c1)[0].0.rank() <= restart_issues(lang, p, c2)[0].0.rank(),
{
}

} // verus!
