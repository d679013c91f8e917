//! Cluster overview: pod phase counts, ready workloads, the node list with
//! its conditions, and the one-line node summary.

use vstd::prelude::*;

use crate::inspections::common::or_default;
use crate::inspections::runner::{
    format_cpu_millis, format_cpu_millis_spec, format_memory_bytes, format_memory_bytes_spec, is_smallest_distinct,
    lemma_smallest_distinct_keeps_all, smallest_distinct, views,
};
use crate::inspections::types::{NodeConditionsRow, NodeRow, PodPhaseBreakdown, StorageSummary};
use crate::utils::lang::{fill, lang_fmt1, lang_fmt2, lang_fmt3, pick, Lang};
use crate::utils::text::{dec, join, join_strings, owned, push_str, str_eq, u64_to_string};

verus! {

pub open spec fn phase_or_unknown(o: Option<String>) -> Seq<char> {
    or_default(o, "Unknown"@)
}

/// Number of pods whose phase (`Unknown` when absent) is `ph`.
pub open spec fn count_phase_is(ps: Seq<Option<String>>, ph: Seq<char>) -> nat
    decreases ps.len(),
{
    if ps.len() == 0 {
        0
    } else {
        count_phase_is(ps.drop_last(), ph) + if phase_or_unknown(ps.last()) == ph {
            1nat
        } else {
            0nat
        }
    }
}

pub open spec fn known_phase(ph: Seq<char>) -> bool {
    ph == "Running"@ || ph == "Pending"@ || ph == "Succeeded"@ || ph == "Failed"@
}

/// Number of pods in none of the four known phases.
pub open spec fn count_other_phase(ps: Seq<Option<String>>) -> nat
    decreases ps.len(),
{
    if ps.len() == 0 {
        0
    } else {
        count_other_phase(ps.drop_last()) + if known_phase(phase_or_unknown(ps.last())) {
            0nat
        } else {
            1nat
        }
    }
}

proof fn lemma_phase_counts_bound(ps: Seq<Option<String>>)
    ensures
        count_phase_is(ps, "Running"@) + count_phase_is(ps, "Pending"@) + count_phase_is(
            ps,
            "Succeeded"@,
        ) + count_phase_is(ps, "Failed"@) + count_other_phase(ps) == ps.len(),
    decreases ps.len(),
{
    reveal_strlit("Running");
    reveal_strlit("Pending");
    reveal_strlit("Succeeded");
    reveal_strlit("Failed");
    assert("Running"@[0] != "Pending"@[0]);
    assert("Running"@[0] != "Succeeded"@[0]);
    assert("Running"@[0] != "Failed"@[0]);
    assert("Pending"@[0] != "Succeeded"@[0]);
    assert("Pending"@[0] != "Failed"@[0]);
    assert("Succeeded"@[0] != "Failed"@[0]);
    if ps.len() > 0 {
        lemma_phase_counts_bound(ps.drop_last());
    }
}

/// Pods by phase (the phase of each pod, when it has one): running,
/// pending, succeeded, failed, and every other or absent phase as unknown.
pub fn pod_phase_breakdown(phases: &Vec<Option<String>>) -> (r: PodPhaseBreakdown)
    requires
        phases.len() <= u32::MAX,
    ensures
        r.running == count_phase_is(phases@, "Running"@),
        r.pending == count_phase_is(phases@, "Pending"@),
        r.succeeded == count_phase_is(phases@, "Succeeded"@),
        r.failed == count_phase_is(phases@, "Failed"@),
        r.unknown == count_other_phase(phases@),
{
    let mut b = PodPhaseBreakdown { running: 0, pending: 0, succeeded: 0, failed: 0, unknown: 0 };
    let mut i: usize = 0;
    while i < phases.len()
        invariant
            i <= phases.len() <= u32::MAX,
            b.running == count_phase_is(phases@.take(i as int), "Running"@),
            b.pending == count_phase_is(phases@.take(i as int), "Pending"@),
            b.succeeded == count_phase_is(phases@.take(i as int), "Succeeded"@),
            b.failed == count_phase_is(phases@.take(i as int), "Failed"@),
            b.unknown == count_other_phase(phases@.take(i as int)),
        decreases phases.len() - i,
    {
        proof {
            assert(phases@.take(i as int + 1).drop_last() =~= phases@.take(i as int));
            lemma_phase_counts_bound(phases@.take(i as int));
            reveal_strlit("Running");
            reveal_strlit("Pending");
            reveal_strlit("Succeeded");
            reveal_strlit("Failed");
            reveal_strlit("Unknown");
            assert("Running"@[0] != "Pending"@[0]);
            assert("Running"@[0] != "Succeeded"@[0]);
            assert("Running"@[0] != "Failed"@[0]);
            assert("Pending"@[0] != "Succeeded"@[0]);
            assert("Pending"@[0] != "Failed"@[0]);
            assert("Succeeded"@[0] != "Failed"@[0]);
            assert("Unknown"@[0] != "Running"@[0]);
            assert("Unknown"@[0] != "Pending"@[0]);
            assert("Unknown"@[0] != "Succeeded"@[0]);
            assert("Unknown"@[0] != "Failed"@[0]);
        }
        let ph: &str = match &phases[i] {
            Some(p) => p.as_str(),
            None => "Unknown",
        };
        if str_eq(ph, "Running") {
            b.running = b.running + 1;
        } else if str_eq(ph, "Pending") {
            b.pending = b.pending + 1;
        } else if str_eq(ph, "Succeeded") {
            b.succeeded = b.succeeded + 1;
        } else if str_eq(ph, "Failed") {
            b.failed = b.failed + 1;
        } else {
            b.unknown = b.unknown + 1;
        }
        i = i + 1;
    }
    proof {
        assert(phases@.take(phases.len() as int) =~= phases@);
    }
    b
}

/// A workload is ready when it wants replicas and has at least that many
/// ready.
pub open spec fn workload_ready(desired: u32, ready: u32) -> bool {
    desired > 0 && ready >= desired
}

pub open spec fn count_ready_pairs(ws: Seq<(u32, u32)>) -> nat
    decreases ws.len(),
{
    if ws.len() == 0 {
        0
    } else {
        count_ready_pairs(ws.drop_last()) + if workload_ready(ws.last().0, ws.last().1) {
            1nat
        } else {
            0nat
        }
    }
}

/// Number of ready workloads among `(desired, ready)` replica counts.
pub fn count_ready_workloads(ws: &Vec<(u32, u32)>) -> (r: u32)
    requires
        ws.len() <= u32::MAX,
    ensures
        r == count_ready_pairs(ws@),
{
    let mut n: u32 = 0;
    let mut i: usize = 0;
    while i < ws.len()
        invariant
            i <= ws.len() <= u32::MAX,
            n == count_ready_pairs(ws@.take(i as int)),
            n <= i,
        decreases ws.len() - i,
    {
        proof {
            assert(ws@.take(i as int + 1).drop_last() =~= ws@.take(i as int));
        }
        let (d, r) = ws[i];
        if d > 0 && r >= d {
            n = n + 1;
        }
        i = i + 1;
    }
    proof {
        assert(ws@.take(ws.len() as int) =~= ws@);
    }
    n
}

// ---------------------------------------------------------------------------
// Nodes
// ---------------------------------------------------------------------------

/// `status.nodeInfo` of a node.
#[derive(Debug, Clone)]
pub struct NodeSystemInfo {
    pub operating_system: String,
    pub architecture: String,
    pub kubelet_version: String,
    pub os_image: String,
    pub kernel_version: String,
    pub container_runtime_version: String,
}

/// The status of a node: conditions as `(type, status)`, system info and
/// addresses as `(type, address)`.
#[derive(Debug, Clone)]
pub struct NodeStatusFacts {
    pub conditions: Option<Vec<(String, String)>>,
    pub node_info: Option<NodeSystemInfo>,
    pub addresses: Option<Vec<(String, String)>>,
}

/// What the overview reads of a node.
#[derive(Debug, Clone)]
pub struct NodeFacts {
    pub name: Option<String>,
    pub status: Option<NodeStatusFacts>,
}

pub open spec fn pairs_of(o: Option<Vec<(String, String)>>) -> Seq<(String, String)> {
    match o {
        Some(v) => v@,
        None => seq![],
    }
}

pub open spec fn node_conditions(n: NodeFacts) -> Seq<(String, String)> {
    match n.status {
        Some(st) => pairs_of(st.conditions),
        None => seq![],
    }
}

/// Status of the last condition of type `t`, `Unknown` when there is none.
pub open spec fn cond_value(cs: Seq<(String, String)>, t: Seq<char>) -> Seq<char>
    decreases cs.len(),
{
    if cs.len() == 0 {
        "Unknown"@
    } else if cs.last().0@ == t {
        cs.last().1@
    } else {
        cond_value(cs.drop_last(), t)
    }
}

pub open spec fn is_ready_true(c: (String, String)) -> bool {
    c.0@ == "Ready"@ && c.1@ == "True"@
}

/// Number of `Ready=True` conditions.
pub open spec fn count_ready_conds(cs: Seq<(String, String)>) -> nat
    decreases cs.len(),
{
    if cs.len() == 0 {
        0
    } else {
        count_ready_conds(cs.drop_last()) + if is_ready_true(cs.last()) {
            1nat
        } else {
            0nat
        }
    }
}

/// Address of the first `InternalIP` entry.
pub open spec fn first_internal_ip(addrs: Seq<(String, String)>) -> Option<Seq<char>>
    decreases addrs.len(),
{
    if addrs.len() == 0 {
        None
    } else if addrs[0].0@ == "InternalIP"@ {
        Some(addrs[0].1@)
    } else {
        first_internal_ip(addrs.drop_first())
    }
}

pub open spec fn nonempty(s: Seq<char>) -> Option<Seq<char>> {
    if s.len() > 0 {
        Some(s)
    } else {
        None
    }
}

pub open spec fn opt_view(o: Option<String>) -> Option<Seq<char>> {
    match o {
        Some(s) => Some(s@),
        None => None,
    }
}

/// Number of pods placed on the node.
pub open spec fn pods_on(pod_nodes: Seq<Option<String>>, name: Seq<char>) -> nat
    decreases pod_nodes.len(),
{
    if pod_nodes.len() == 0 {
        0
    } else {
        pods_on(pod_nodes.drop_last(), name) + if pod_nodes.last() is Some && pod_nodes.last()->0@
            == name {
            1nat
        } else {
            0nat
        }
    }
}

pub open spec fn node_info_of(n: NodeFacts) -> Option<NodeSystemInfo> {
    match n.status {
        Some(st) => st.node_info,
        None => None,
    }
}

pub open spec fn node_address_of(n: NodeFacts) -> Option<Seq<char>> {
    match n.status {
        Some(st) => first_internal_ip(pairs_of(st.addresses)),
        None => None,
    }
}

/// The node list row of a node.
pub open spec fn node_row_matches(n: NodeFacts, pod_nodes: Seq<Option<String>>, r: NodeRow) -> bool {
    let name = or_default(n.name, ""@);
    let info = node_info_of(n);
    &&& r.name@ == name
    &&& r.operating_system@ == match info {
        Some(i) => i.operating_system@,
        None => "Unknown"@,
    }
    &&& r.architecture@ == match info {
        Some(i) => i.architecture@,
        None => "unknown"@,
    }
    &&& r.kubelet_version@ == match info {
        Some(i) => i.kubelet_version@,
        None => ""@,
    }
    &&& r.ready == exists|k: int|
        0 <= k < node_conditions(n).len() && is_ready_true(#[trigger] node_conditions(n)[k])
    &&& r.pod_count == pods_on(pod_nodes, name)
    &&& opt_view(r.node_address) == node_address_of(n)
    &&& opt_view(r.os_image) == match info {
        Some(i) => nonempty(i.os_image@),
        None => None,
    }
    &&& opt_view(r.kernel_version) == match info {
        Some(i) => nonempty(i.kernel_version@),
        None => None,
    }
    &&& opt_view(r.container_runtime_version) == match info {
        Some(i) => nonempty(i.container_runtime_version@),
        None => None,
    }
}

/// The conditions row of a node.
pub open spec fn conditions_row_matches(n: NodeFacts, c: NodeConditionsRow) -> bool {
    let cs = node_conditions(n);
    &&& c.node_name@ == or_default(n.name, ""@)
    &&& c.ready@ == cond_value(cs, "Ready"@)
    &&& c.memory_pressure@ == cond_value(cs, "MemoryPressure"@)
    &&& c.disk_pressure@ == cond_value(cs, "DiskPressure"@)
    &&& c.pid_pressure@ == cond_value(cs, "PIDPressure"@)
}

fn cond_value_exec(cs: &Vec<(String, String)>, t: &str) -> (r: String)
    ensures
        r@ == cond_value(cs@, t@),
{
    let mut i: usize = cs.len();
    proof {
        assert(cs@.take(i as int) =~= cs@);
    }
    while i > 0
        invariant
            i <= cs.len(),
            cond_value(cs@, t@) == cond_value(cs@.take(i as int), t@),
        decreases i,
    {
        proof {
            assert(cs@.take(i as int).drop_last() =~= cs@.take(i - 1));
            assert(cs@.take(i as int).last() == cs@[i - 1]);
        }
        if str_eq(cs[i - 1].0.as_str(), t) {
            return owned(cs[i - 1].1.as_str());
        }
        i = i - 1;
    }
    owned("Unknown")
}

fn count_pods_on(pod_nodes: &Vec<Option<String>>, name: &str) -> (r: u32)
    requires
        pod_nodes.len() <= u32::MAX,
    ensures
        r == pods_on(pod_nodes@, name@),
{
    let mut n: u32 = 0;
    let mut i: usize = 0;
    while i < pod_nodes.len()
        invariant
            i <= pod_nodes.len() <= u32::MAX,
            n == pods_on(pod_nodes@.take(i as int), name@),
            n <= i,
        decreases pod_nodes.len() - i,
    {
        proof {
            assert(pod_nodes@.take(i as int + 1).drop_last() =~= pod_nodes@.take(i as int));
        }
        if let Some(p) = &pod_nodes[i] {
            if str_eq(p.as_str(), name) {
                n = n + 1;
            }
        }
        i = i + 1;
    }
    proof {
        assert(pod_nodes@.take(pod_nodes.len() as int) =~= pod_nodes@);
    }
    n
}

fn nonempty_exec(s: &String) -> (r: Option<String>)
    ensures
        opt_view(r) == nonempty(s@),
{
    if s.as_str().is_empty() {
        None
    } else {
        Some(s.clone())
    }
}

/// The rows of one node and its number of `Ready=True` conditions.
pub fn node_rows(n: &NodeFacts, pod_nodes: &Vec<Option<String>>) -> (r: (NodeRow, NodeConditionsRow, u32))
    requires
        pod_nodes.len() <= u32::MAX,
        node_conditions(*n).len() <= u32::MAX,
    ensures
        node_row_matches(*n, pod_nodes@, r.0),
        conditions_row_matches(*n, r.1),
        r.2 == count_ready_conds(node_conditions(*n)),
{
    let name: String = match &n.name {
        Some(s) => s.clone(),
        None => String::new(),
    };
    let empty: Vec<(String, String)> = Vec::new();
    let conds: &Vec<(String, String)> = match &n.status {
        Some(st) => match &st.conditions {
            Some(c) => c,
            None => &empty,
        },
        None => &empty,
    };
    proof {
        assert(conds@ =~= node_conditions(*n));
    }
    let mut ready_count: u32 = 0;
    let mut is_ready = false;
    let mut i: usize = 0;
    while i < conds.len()
        invariant
            i <= conds.len() <= u32::MAX,
            ready_count == count_ready_conds(conds@.take(i as int)),
            ready_count <= i,
            is_ready == exists|k: int| 0 <= k < i && is_ready_true(#[trigger] conds@[k]),
        decreases conds.len() - i,
    {
        proof {
            assert(conds@.take(i as int + 1).drop_last() =~= conds@.take(i as int));
        }
        if str_eq(conds[i].0.as_str(), "Ready") && str_eq(conds[i].1.as_str(), "True") {
            ready_count = ready_count + 1;
            is_ready = true;
        }
        i = i + 1;
    }
    proof {
        assert(conds@.take(conds.len() as int) =~= conds@);
    }
    let (os, arch, kubelet, os_image, kernel, runtime) = match &n.status {
        Some(st) => match &st.node_info {
            Some(info) => (
                info.operating_system.clone(),
                info.architecture.clone(),
                info.kubelet_version.clone(),
                nonempty_exec(&info.os_image),
                nonempty_exec(&info.kernel_version),
                nonempty_exec(&info.container_runtime_version),
            ),
            None => (owned("Unknown"), owned("unknown"), String::new(), None, None, None),
        },
        None => (owned("Unknown"), owned("unknown"), String::new(), None, None, None),
    };
    let address: Option<String> = match &n.status {
        Some(st) => match &st.addresses {
            Some(addrs) => {
                let mut found: Option<String> = None;
                let mut k: usize = 0;
                proof {
                    assert(addrs@.skip(0) =~= addrs@);
                }
                while k < addrs.len() && found.is_none()
                    invariant
                        k <= addrs.len(),
                        found is None ==> first_internal_ip(addrs@) == first_internal_ip(
                            addrs@.skip(k as int),
                        ),
                        found is Some ==> opt_view(found) == first_internal_ip(addrs@),
                    decreases addrs.len() - k,
                {
                    proof {
                        assert(addrs@.skip(k as int)[0] == addrs@[k as int]);
                        assert(addrs@.skip(k as int).drop_first() =~= addrs@.skip(k as int + 1));
                    }
                    if str_eq(addrs[k].0.as_str(), "InternalIP") {
                        found = Some(addrs[k].1.clone());
                    }
                    k = k + 1;
                }
                proof {
                    if found is None {
                        assert(addrs@.skip(k as int) =~= seq![]);
                    }
                }
                found
            },
            None => None,
        },
        None => None,
    };
    let pod_count = count_pods_on(pod_nodes, name.as_str());
    let row = NodeRow {
        name: name.clone(),
        operating_system: os,
        architecture: arch,
        kubelet_version: kubelet,
        ready: is_ready,
        pod_count,
        node_address: address,
        os_image,
        kernel_version: kernel,
        container_runtime_version: runtime,
    };
    let crow = NodeConditionsRow {
        node_name: name,
        ready: cond_value_exec(conds, "Ready"),
        memory_pressure: cond_value_exec(conds, "MemoryPressure"),
        disk_pressure: cond_value_exec(conds, "DiskPressure"),
        pid_pressure: cond_value_exec(conds, "PIDPressure"),
    };
    proof {
        reveal_strlit("");
        assert(conds@ == node_conditions(*n));
        assert(crow.node_name@ == or_default(n.name, ""@));
        assert(crow.ready@ == cond_value(node_conditions(*n), "Ready"@));
        assert(row.name@ == or_default(n.name, ""@));
        assert(row.pod_count == pods_on(pod_nodes@, or_default(n.name, ""@)));
        let info = node_info_of(*n);
        assert(row.operating_system@ == match info {
            Some(i) => i.operating_system@,
            None => "Unknown"@,
        });
        assert(row.architecture@ == match info {
            Some(i) => i.architecture@,
            None => "unknown"@,
        });
        assert(row.kubelet_version@ == match info {
            Some(i) => i.kubelet_version@,
            None => ""@,
        });
        assert(opt_view(row.kernel_version) == match info {
            Some(i) => nonempty(i.kernel_version@),
            None => None,
        });
        assert(opt_view(row.container_runtime_version) == match info {
            Some(i) => nonempty(i.container_runtime_version@),
            None => None,
        });
        assert(opt_view(row.os_image) == match info {
            Some(i) => nonempty(i.os_image@),
            None => None,
        });
        assert(opt_view(row.node_address) == node_address_of(*n));
        assert(row.ready == exists|k: int|
            0 <= k < node_conditions(*n).len() && is_ready_true(#[trigger] node_conditions(*n)[k]));
    }
    (row, crow, ready_count)
}


// ---------------------------------------------------------------------------
// Node summary
// ---------------------------------------------------------------------------

pub type OsArch = (Seq<char>, Seq<char>);

pub open spec fn os_arch_of(i: (String, String, String)) -> OsArch {
    (i.0@, i.1@)
}

/// Number of nodes with this operating system and architecture.
pub open spec fn count_os_arch(infos: Seq<(String, String, String)>, p: OsArch) -> nat
    decreases infos.len(),
{
    if infos.len() == 0 {
        0
    } else {
        count_os_arch(infos.drop_last(), p) + if os_arch_of(infos.last()) == p {
            1nat
        } else {
            0nat
        }
    }
}

/// Node `i` is the first with its operating system and architecture.
pub open spec fn first_of_kind(infos: Seq<(String, String, String)>, i: int) -> bool {
    forall|j: int| 0 <= j < i ==> os_arch_of(#[trigger] infos[j]) != os_arch_of(infos[i])
}

/// `"<os> <count> node(s) <arch>"` for each operating system and
/// architecture, in order of first appearance among the first `k` nodes.
pub open spec fn kind_parts(lang: Lang, infos: Seq<(String, String, String)>, k: int) -> Seq<Seq<char>>
    decreases k,
{
    if k <= 0 {
        seq![]
    } else {
        kind_parts(lang, infos, k - 1) + if first_of_kind(infos, k - 1) {
            seq![
                fill(
                    pick(lang, "{} {} node(s) {}"@, "{} {} 个节点 {}"@),
                    seq![
                        infos[k - 1].0@,
                        dec(count_os_arch(infos, os_arch_of(infos[k - 1]))),
                        infos[k - 1].1@,
                    ],
                ),
            ]
        } else {
            seq![]
        }
    }
}

/// The kubelet versions that are set.
pub open spec fn set_versions(infos: Seq<(String, String, String)>) -> Seq<Seq<char>>
    decreases infos.len(),
{
    if infos.len() == 0 {
        seq![]
    } else {
        set_versions(infos.drop_last()) + if infos.last().2@.len() > 0 {
            seq![infos.last().2@]
        } else {
            seq![]
        }
    }
}

/// The kubelet part of the summary, from the sorted distinct versions.
pub open spec fn kubelet_part(lang: Lang, vs: Seq<Seq<char>>) -> Seq<char> {
    if vs.len() == 0 {
        seq![]
    } else if vs.len() == 1 {
        fill(pick(lang, ", kubelet {}"@, "，kubelet {}"@), seq![vs[0]])
    } else {
        fill(pick(lang, ", kubelet {}..{}"@, "，kubelet {}..{}"@), seq![vs[0], vs.last()])
    }
}

fn count_kind(infos: &Vec<(String, String, String)>, os: &str, arch: &str) -> (r: u32)
    requires
        infos.len() <= u32::MAX,
    ensures
        r == count_os_arch(infos@, (os@, arch@)),
{
    let mut n: u32 = 0;
    let mut i: usize = 0;
    while i < infos.len()
        invariant
            i <= infos.len() <= u32::MAX,
            n == count_os_arch(infos@.take(i as int), (os@, arch@)),
            n <= i,
        decreases infos.len() - i,
    {
        proof {
            assert(infos@.take(i as int + 1).drop_last() =~= infos@.take(i as int));
        }
        if str_eq(infos[i].0.as_str(), os) && str_eq(infos[i].1.as_str(), arch) {
            n = n + 1;
        }
        i = i + 1;
    }
    proof {
        assert(infos@.take(infos.len() as int) =~= infos@);
    }
    n
}

/// One-line summary of the nodes from `(operating system, architecture,
/// kubelet version)` of each node that reports them: how many nodes of
/// each kind, joined, then the kubelet version or range of versions.
/// `None` for no nodes.
pub fn node_summary(lang: Lang, infos: &Vec<(String, String, String)>) -> (r: Option<String>)
    requires
        infos.len() <= u32::MAX,
    ensures
        match r {
            None => infos.len() == 0,
            Some(s) => infos.len() > 0 && exists|vs: Seq<Seq<char>>|
                is_smallest_distinct(set_versions(infos@), set_versions(infos@).len(), vs)
                    && s@ == join(kind_parts(lang, infos@, infos.len() as int), pick(lang, ", "@, "，"@))
                    + kubelet_part(lang, vs),
        },
{
    if infos.len() == 0 {
        return None;
    }
    let mut parts: Vec<String> = Vec::new();
    let mut i: usize = 0;
    while i < infos.len()
        invariant
            i <= infos.len() <= u32::MAX,
            parts@.map_values(|s: String| s@) == kind_parts(lang, infos@, i as int),
        decreases infos.len() - i,
    {
        let mut seen = false;
        let mut j: usize = 0;
        while j < i
            invariant
                j <= i < infos.len(),
                seen == exists|m: int| 0 <= m < j && os_arch_of(#[trigger] infos@[m]) == os_arch_of(infos@[i as int]),
            decreases i - j,
        {
            if str_eq(infos[j].0.as_str(), infos[i].0.as_str()) && str_eq(infos[j].1.as_str(), infos[i].1.as_str()) {
                seen = true;
            }
            j = j + 1;
        }
        if !seen {
            let c = count_kind(infos, infos[i].0.as_str(), infos[i].1.as_str());
            let cs = u64_to_string(c as u64);
            let part = lang_fmt3(lang, "{} {} node(s) {}", "{} {} 个节点 {}", infos[i].0.as_str(), cs.as_str(), infos[i].1.as_str());
            let ghost before = parts@;
            parts.push(part);
            proof {
                assert(parts@.map_values(|s: String| s@) =~= before.map_values(|s: String| s@).push(part@));
            }
        }
        proof {
            assert(parts@.map_values(|s: String| s@) =~= kind_parts(lang, infos@, i as int + 1));
        }
        i = i + 1;
    }
    let mut summary = join_strings(&parts, lang.t(", ", "，"));
    let mut versions: Vec<String> = Vec::new();
    let mut k: usize = 0;
    while k < infos.len()
        invariant
            k <= infos.len(),
            views(versions@) == set_versions(infos@.take(k as int)),
        decreases infos.len() - k,
    {
        proof {
            assert(infos@.take(k as int + 1).drop_last() =~= infos@.take(k as int));
        }
        if !infos[k].2.as_str().is_empty() {
            let ghost before = versions@;
            versions.push(infos[k].2.clone());
            proof {
                assert(views(versions@) =~= views(before).push(infos@[k as int].2@));
            }
        } else {
            proof {
                assert(views(versions@) =~= set_versions(infos@.take(k as int + 1)));
            }
        }
        k = k + 1;
    }
    proof {
        assert(infos@.take(infos.len() as int) =~= infos@);
    }
    let sorted = smallest_distinct(&versions, versions.len());
    let ghost sv = views(sorted@);
    let ghost base = summary@;
    if sorted.len() == 1 {
        let part = lang_fmt1(lang, ", kubelet {}", "，kubelet {}", sorted[0].as_str());
        push_str(&mut summary, part.as_str());
    } else if sorted.len() > 1 {
        let part = lang_fmt2(lang, ", kubelet {}..{}", "，kubelet {}..{}", sorted[0].as_str(), sorted[sorted.len() - 1].as_str());
        push_str(&mut summary, part.as_str());
    }
    proof {
        assert(sv.len() == sorted.len());
        if sorted.len() > 0 {
            assert(sv[0] == sorted@[0]@);
            assert(sv.last() == sorted@[sorted.len() - 1]@);
        }
        assert(summary@ =~= base + kubelet_part(lang, sv));
    }
    Some(summary)
}


// ---------------------------------------------------------------------------
// Storage, capacity and age
// ---------------------------------------------------------------------------

pub open spec fn is_bound(ph: Option<String>) -> bool {
    ph matches Some(p) && p@ == "Bound"@
}

pub open spec fn count_bound(ps: Seq<Option<String>>) -> nat
    decreases ps.len(),
{
    if ps.len() == 0 {
        0
    } else {
        count_bound(ps.drop_last()) + if is_bound(ps.last()) {
            1nat
        } else {
            0nat
        }
    }
}

pub open spec fn is_default_mark(a: Option<String>) -> bool {
    a matches Some(v) && v@ == "true"@
}

/// The storage summary from what could be listed: the number of
/// persistent volumes, the phase of each claim, and the default-class
/// annotation of each storage class; a list that could not be read leaves
/// its counts at zero. Counts are taken modulo 2^32, as `as u32` does.
pub fn storage_summary(
    pv_count: Option<usize>,
    pvc_phases: Option<&Vec<Option<String>>>,
    default_annotations: Option<&Vec<Option<String>>>,
) -> (r: StorageSummary)
    requires
        pvc_phases matches Some(v) ==> v.len() <= u32::MAX,
    ensures
        r.pv_total == match pv_count {
            Some(n) => n as u32,
            None => 0u32,
        },
        r.pvc_total == match pvc_phases {
            Some(v) => v.len() as u32,
            None => 0u32,
        },
        r.pvc_bound == match pvc_phases {
            Some(v) => count_bound(v@),
            None => 0nat,
        },
        r.storage_class_count == match default_annotations {
            Some(v) => v.len() as u32,
            None => 0u32,
        },
        r.has_default_storage_class == match default_annotations {
            Some(v) => exists|i: int| 0 <= i < v.len() && is_default_mark(#[trigger] v@[i]),
            None => false,
        },
{
    let mut s = StorageSummary {
        pv_total: 0,
        pvc_total: 0,
        pvc_bound: 0,
        storage_class_count: 0,
        has_default_storage_class: false,
    };
    if let Some(n) = pv_count {
        s.pv_total = n as u32;
    }
    if let Some(v) = pvc_phases {
        s.pvc_total = v.len() as u32;
        let mut bound: u32 = 0;
        let mut i: usize = 0;
        while i < v.len()
            invariant
                i <= v.len() <= u32::MAX,
                bound == count_bound(v@.take(i as int)),
                bound <= i,
            decreases v.len() - i,
        {
            proof {
                assert(v@.take(i as int + 1).drop_last() =~= v@.take(i as int));
            }
            let here = match &v[i] {
                Some(p) => str_eq(p.as_str(), "Bound"),
                None => false,
            };
            if here {
                bound = bound + 1;
            }
            i = i + 1;
        }
        proof {
            assert(v@.take(v.len() as int) =~= v@);
        }
        s.pvc_bound = bound;
    }
    if let Some(v) = default_annotations {
        s.storage_class_count = v.len() as u32;
        let mut found = false;
        let mut i: usize = 0;
        while i < v.len()
            invariant
                i <= v.len(),
                found == exists|j: int| 0 <= j < i && is_default_mark(#[trigger] v@[j]),
            decreases v.len() - i,
        {
            let here = match &v[i] {
                Some(a) => str_eq(a.as_str(), "true"),
                None => false,
            };
            proof {
                assert(here == is_default_mark(v@[i as int]));
            }
            found = found || here;
            i = i + 1;
        }
        s.has_default_storage_class = found;
    }
    s
}

/// Sum of the first `k` values.
pub open spec fn sum_first(vs: Seq<i64>, k: int) -> int
    decreases k,
{
    if k <= 0 {
        0
    } else {
        sum_first(vs, k - 1) + vs[k - 1]
    }
}

/// Every running sum of the values fits in an `i64`.
pub open spec fn sums_fit(vs: Seq<i64>) -> bool {
    forall|k: int| 0 <= k <= vs.len() ==> i64::MIN <= #[trigger] sum_first(vs, k) <= i64::MAX
}

/// Sum of quantities (millicores or bytes) over the nodes.
pub fn sum_quantities(vs: &Vec<i64>) -> (r: i64)
    requires
        sums_fit(vs@),
    ensures
        r == sum_first(vs@, vs.len() as int),
{
    let mut total: i64 = 0;
    let mut i: usize = 0;
    while i < vs.len()
        invariant
            i <= vs.len(),
            sums_fit(vs@),
            total == sum_first(vs@, i as int),
        decreases vs.len() - i,
    {
        assert(i64::MIN <= sum_first(vs@, i as int + 1) <= i64::MAX);
        total = total + vs[i];
        i = i + 1;
    }
    total
}

/// The capacity and allocatable totals of the overview, as text: CPU
/// (cores, or millicores) and memory; `None` without nodes or without any
/// capacity.
pub fn node_resource_texts(
    node_count: u32,
    cap_cpu: i64,
    cap_mem: i64,
    alloc_cpu: i64,
    alloc_mem: i64,
) -> (r: Option<(String, String, String, String)>)
    ensures
        match r {
            Some(t) => node_count > 0 && (cap_cpu > 0 || cap_mem > 0) && t.0@ == format_cpu_millis_spec(cap_cpu as int)
                && t.1@ == format_memory_bytes_spec(cap_mem as int) && t.2@ == format_cpu_millis_spec(alloc_cpu as int)
                && t.3@ == format_memory_bytes_spec(alloc_mem as int),
            None => !(node_count > 0 && (cap_cpu > 0 || cap_mem > 0)),
        },
{
    if node_count > 0 && (cap_cpu > 0 || cap_mem > 0) {
        Some((
            format_cpu_millis(cap_cpu),
            format_memory_bytes(cap_mem),
            format_cpu_millis(alloc_cpu),
            format_memory_bytes(alloc_mem),
        ))
    } else {
        None
    }
}

/// Whole days from `from` to `to` (seconds), truncated toward zero.
pub open spec fn whole_days(from: int, to: int) -> int {
    let d = to - from;
    if d >= 0 {
        d / 86400
    } else {
        -((-d) / 86400)
    }
}

/// Age of the cluster in days: from the earliest node creation time to
/// `now` (seconds), never below zero; `None` without nodes.
pub fn cluster_age_days(creations: &Vec<i64>, now: i64) -> (r: Option<u64>)
    ensures
        match r {
            Some(days) => creations.len() > 0 && exists|i: int|
                0 <= i < creations.len() && (forall|j: int| 0 <= j < creations.len() ==> creations@[i] <= #[trigger] creations@[j])
                    && days == (if whole_days(#[trigger] creations@[i] as int, now as int) > 0 {
                    whole_days(creations@[i] as int, now as int)
                } else {
                    0
                }),
            None => creations.len() == 0,
        },
{
    if creations.len() == 0 {
        return None;
    }
    let mut k: usize = 0;
    let mut i: usize = 1;
    while i < creations.len()
        invariant
            1 <= i <= creations.len(),
            k < i,
            forall|j: int| 0 <= j < i ==> creations@[k as int] <= #[trigger] creations@[j],
        decreases creations.len() - i,
    {
        if creations[i] < creations[k] {
            k = i;
        }
        i = i + 1;
    }
    let d: i128 = now as i128 - creations[k] as i128;
    let days: i128 = if d >= 0 {
        d / 86400
    } else {
        -((-d) / 86400)
    };
    assert(days == whole_days(creations@[k as int] as int, now as int));
    let r: u64 = if days > 0 {
        assert(days <= u64::MAX) by {
            assert(d <= 0x1_0000_0000_0000_0000);
        }
        days as u64
    } else {
        0
    };
    Some(r)
}


/// Number of nodes with a `Ready=True` condition.
pub open spec fn count_ready_nodes(ns: Seq<NodeFacts>) -> nat
    decreases ns.len(),
{
    if ns.len() == 0 {
        0
    } else {
        count_ready_nodes(ns.drop_last()) + if count_ready_conds(node_conditions(ns.last())) > 0 {
            1nat
        } else {
            0nat
        }
    }
}

fn has_ready_condition(n: &NodeFacts) -> (r: bool)
    ensures
        r == (count_ready_conds(node_conditions(*n)) > 0),
{
    match &n.status {
        Some(st) => match &st.conditions {
            Some(cs) => {
                let mut has = false;
                let mut j: usize = 0;
                while j < cs.len()
                    invariant
                        j <= cs.len(),
                        has == (count_ready_conds(cs@.take(j as int)) > 0),
                    decreases cs.len() - j,
                {
                    proof {
                        assert(cs@.take(j as int + 1).drop_last() =~= cs@.take(j as int));
                    }
                    let c = &cs[j];
                    if str_eq(c.0.as_str(), "Ready") && str_eq(c.1.as_str(), "True") {
                        has = true;
                    }
                    j = j + 1;
                }
                proof {
                    assert(cs@.take(cs.len() as int) =~= cs@);
                }
                has
            },
            None => false,
        },
        None => false,
    }
}

/// How many of the nodes report `Ready=True`.
pub fn ready_node_count(nodes: &Vec<NodeFacts>) -> (r: usize)
    ensures
        r == count_ready_nodes(nodes@),
{
    let mut count: usize = 0;
    let mut i: usize = 0;
    while i < nodes.len()
        invariant
            i <= nodes.len(),
            count <= i,
            count == count_ready_nodes(nodes@.take(i as int)),
        decreases nodes.len() - i,
    {
        proof {
            assert(nodes@.take(i as int + 1).drop_last() =~= nodes@.take(i as int));
        }
        if has_ready_condition(&nodes[i]) {
            count = count + 1;
        }
        i = i + 1;
    }
    proof {
        assert(nodes@.take(nodes.len() as int) =~= nodes@);
    }
    count
}

} // verus!
