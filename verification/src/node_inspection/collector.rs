//! Container state counts of a node, from the container statuses of the
//! pods scheduled on it.

use vstd::prelude::*;

use crate::utils::text::{owned, str_eq};

verus! {

/// The state a container status reports.
#[derive(Debug, Clone, Copy, PartialEq, Eq, Structural)]
pub enum ContainerState {
    Running,
    Waiting,
    Terminated,
    /// A state that names none of the three.
    Other,
}

/// What the count reads of a pod: the node it is scheduled on, whether it
/// has a status, and the state of each container (init containers first),
/// `None` for a container status without a state.
#[derive(Debug, Clone)]
pub struct PodStates {
    pub node_name: Option<String>,
    pub has_status: bool,
    pub states: Vec<Option<ContainerState>>,
}

/// `(running, waiting, exited)` of a list of container states: a state
/// that is none of the three counts as waiting; a missing state does not
/// count.
pub open spec fn state_counts(states: Seq<Option<ContainerState>>) -> (nat, nat, nat)
    decreases states.len(),
{
    if states.len() == 0 {
        (0, 0, 0)
    } else {
        let c = state_counts(states.drop_last());
        match states.last() {
            Some(ContainerState::Running) => ((c.0 + 1) as nat, c.1, c.2),
            Some(ContainerState::Waiting) => (c.0, (c.1 + 1) as nat, c.2),
            Some(ContainerState::Other) => (c.0, (c.1 + 1) as nat, c.2),
            Some(ContainerState::Terminated) => (c.0, c.1, (c.2 + 1) as nat),
            None => c,
        }
    }
}

/// Whether a pod's containers count for a node: it is scheduled there (a
/// non-empty node name) and has a status.
pub open spec fn counts_for(p: PodStates, node: Seq<char>) -> bool {
    &&& p.has_status
    &&& p.node_name matches Some(n) && n@ == node && n@.len() > 0
}

/// `(running, waiting, exited)` of the containers of the pods on a node.
pub open spec fn node_counts(pods: Seq<PodStates>, node: Seq<char>) -> (nat, nat, nat)
    decreases pods.len(),
{
    if pods.len() == 0 {
        (0, 0, 0)
    } else {
        let c = node_counts(pods.drop_last(), node);
        let p = pods.last();
        if counts_for(p, node) {
            let d = state_counts(p.states@);
            ((c.0 + d.0) as nat, (c.1 + d.1) as nat, (c.2 + d.2) as nat)
        } else {
            c
        }
    }
}

/// Number of container states over all pods.
pub open spec fn total_states(pods: Seq<PodStates>) -> nat
    decreases pods.len(),
{
    if pods.len() == 0 {
        0
    } else {
        total_states(pods.drop_last()) + pods.last().states@.len()
    }
}

proof fn lemma_state_counts_bounded(states: Seq<Option<ContainerState>>)
    ensures
        state_counts(states).0 + state_counts(states).1 + state_counts(states).2 <= states.len(),
    decreases states.len(),
{
    if states.len() > 0 {
        lemma_state_counts_bounded(states.drop_last());
    }
}

proof fn lemma_node_counts_bounded(pods: Seq<PodStates>, node: Seq<char>)
    ensures
        node_counts(pods, node).0 + node_counts(pods, node).1 + node_counts(pods, node).2 <= total_states(pods),
    decreases pods.len(),
{
    if pods.len() > 0 {
        lemma_node_counts_bounded(pods.drop_last(), node);
        lemma_state_counts_bounded(pods.last().states@);
    }
}

proof fn lemma_total_states_prefix(pods: Seq<PodStates>, i: int)
    requires
        0 <= i <= pods.len(),
    ensures
        total_states(pods.take(i)) <= total_states(pods),
    decreases pods.len() - i,
{
    if i < pods.len() {
        lemma_total_states_prefix(pods, i + 1);
        assert(pods.take(i + 1).drop_last() =~= pods.take(i));
    } else {
        assert(pods.take(i) =~= pods);
    }
}

/// The counts of one pod's container states, added to `acc`.
fn add_state_counts(states: &Vec<Option<ContainerState>>, acc: (u32, u32, u32)) -> (r: (u32, u32, u32))
    requires
        acc.0 + acc.1 + acc.2 + states@.len() <= u32::MAX,
    ensures
        r.0 == acc.0 + state_counts(states@).0,
        r.1 == acc.1 + state_counts(states@).1,
        r.2 == acc.2 + state_counts(states@).2,
{
    let (mut running, mut waiting, mut exited) = acc;
    let mut i: usize = 0;
    while i < states.len()
        invariant
            i <= states.len(),
            acc.0 + acc.1 + acc.2 + states@.len() <= u32::MAX,
            running == acc.0 + state_counts(states@.take(i as int)).0,
            waiting == acc.1 + state_counts(states@.take(i as int)).1,
            exited == acc.2 + state_counts(states@.take(i as int)).2,
        decreases states.len() - i,
    {
        proof {
            assert(states@.take(i as int + 1).drop_last() =~= states@.take(i as int));
            lemma_state_counts_bounded(states@.take(i as int));
        }
        match states[i] {
            Some(ContainerState::Running) => running = running + 1,
            Some(ContainerState::Waiting) => waiting = waiting + 1,
            Some(ContainerState::Other) => waiting = waiting + 1,
            Some(ContainerState::Terminated) => exited = exited + 1,
            None => {},
        }
        i = i + 1;
    }
    proof {
        assert(states@.take(states.len() as int) =~= states@);
    }
    (running, waiting, exited)
}

/// `(running, waiting, exited)` containers of the pods on `node`.
pub fn node_state_counts(pods: &Vec<PodStates>, node: &str) -> (r: (u32, u32, u32))
    requires
        total_states(pods@) <= u32::MAX,
    ensures
        r.0 == node_counts(pods@, node@).0,
        r.1 == node_counts(pods@, node@).1,
        r.2 == node_counts(pods@, node@).2,
{
    let mut acc: (u32, u32, u32) = (0, 0, 0);
    let mut i: usize = 0;
    while i < pods.len()
        invariant
            i <= pods.len(),
            total_states(pods@) <= u32::MAX,
            acc.0 == node_counts(pods@.take(i as int), node@).0,
            acc.1 == node_counts(pods@.take(i as int), node@).1,
            acc.2 == node_counts(pods@.take(i as int), node@).2,
        decreases pods.len() - i,
    {
        let p = &pods[i];
        proof {
            assert(pods@.take(i as int + 1).drop_last() =~= pods@.take(i as int));
            lemma_node_counts_bounded(pods@.take(i as int + 1), node@);
            lemma_node_counts_bounded(pods@.take(i as int), node@);
            lemma_total_states_prefix(pods@, i as int + 1);
            lemma_state_counts_bounded(p.states@);
        }
        proof {
            reveal_strlit("");
        }
        let here = match &p.node_name {
            Some(n) => p.has_status && !str_eq(n.as_str(), "") && str_eq(n.as_str(), node),
            None => false,
        };
        proof {
            assert(pods@.take(i as int + 1).last() == pods@[i as int]);
            if let Some(n) = &p.node_name {
                assert(n@.len() == 0 ==> n@ =~= ""@);
            }
            assert(here == counts_for(pods@[i as int], node@));
        }
        if here {
            acc = add_state_counts(&p.states, acc);
        }
        i = i + 1;
    }
    proof {
        assert(pods@.take(pods.len() as int) =~= pods@);
    }
    acc
}

/// The counts worth reporting, named: `running`, `exited`, `waiting`, in
/// that order, each only when above zero.
pub fn state_count_entries(running: u32, waiting: u32, exited: u32) -> (r: Vec<(String, u32)>)
    ensures
        r@.map_values(|e: (String, u32)| (e.0@, e.1)) == (if running > 0 { seq![("running"@, running)] } else { seq![] })
            + (if exited > 0 { seq![("exited"@, exited)] } else { seq![] }) + (if waiting > 0 {
            seq![("waiting"@, waiting)]
        } else {
            seq![]
        }),
{
    let mut out: Vec<(String, u32)> = Vec::new();
    if running > 0 {
        out.push((owned("running"), running));
    }
    if exited > 0 {
        out.push((owned("exited"), exited));
    }
    if waiting > 0 {
        out.push((owned("waiting"), waiting));
    }
    proof {
        let want = (if running > 0 { seq![("running"@, running)] } else { seq![] }) + (if exited > 0 {
            seq![("exited"@, exited)]
        } else {
            seq![]
        }) + (if waiting > 0 { seq![("waiting"@, waiting)] } else { seq![] });
        assert(out@.map_values(|e: (String, u32)| (e.0@, e.1)) =~= want);
    }
    out
}

} // verus!
