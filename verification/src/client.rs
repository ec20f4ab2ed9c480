//! The choice of a node to talk to, for the operator's tools: which of the
//! configured nodes to try, in which order, and which of them to take.
//!
//! Trying a node means connecting to it and asking for the chain's metadata.
//! That is the caller's part. The functions here say what to try next, given
//! what came of the tries so far.

use vstd::prelude::*;
use crate::trusted::choose_all;

verus! {

/// The node that is tried where none is given.
pub open spec fn spec_default_node_url() -> Seq<char> {
    "http://localhost:8080"@
}

/// The part of the operator's configuration that names nodes.
#[derive(Clone, Debug)]
pub struct Profile {
    /// The operator's own node.
    pub default_node: Option<String>,
    /// Other nodes to fall back on.
    pub upstream_nodes: Option<Vec<String>>,
}

/// What came of trying one node.
#[derive(Clone, Copy, Debug, PartialEq, Eq, Structural)]
pub enum ProbeOutcome {
    /// No client could be made for the node's address.
    ClientFailed,
    /// A client was made, and the node did not answer with metadata.
    MetadataFailed,
    /// The node answered: `version` is the height of its chain.
    Connected { version: u64 },
}

/// What to do next in a search for a node.
#[derive(Clone, Copy, Debug, PartialEq, Eq, Structural)]
pub enum ClientSearch {
    /// Try the node at this place in the configured list.
    Probe(usize),
    /// Take the node at this place in the configured list.
    Found(usize),
    /// Every node was tried and none can be taken.
    Exhausted,
}

/// Whether a node that was tried can be taken. It has to have answered, and
/// where a height is asked for, its chain has to have one.
pub open spec fn spec_accepted(outcome: ProbeOutcome, need_height: bool) -> bool {
    match outcome {
        ProbeOutcome::Connected { version } => !need_height || version > 0,
        _ => false,
    }
}

/// The place of the first of the tries that can be taken, if there is one.
pub open spec fn spec_first_accepted(outcomes: Seq<ProbeOutcome>, need_height: bool) -> Option<int>
    decreases outcomes.len(),
{
    if outcomes.len() == 0 {
        None
    } else {
        match spec_first_accepted(outcomes.drop_last(), need_height) {
            Some(i) => Some(i),
            None => if spec_accepted(outcomes.last(), need_height) {
                Some(outcomes.len() - 1)
            } else {
                None
            },
        }
    }
}

/// The first of the tries that can be taken is one that can be taken, and
/// none before it can. Where none is found, none can be taken.
pub proof fn lemma_first_accepted(outcomes: Seq<ProbeOutcome>, need_height: bool)
    ensures
        match spec_first_accepted(outcomes, need_height) {
            Some(i) => 0 <= i < outcomes.len() && spec_accepted(outcomes[i], need_height)
                && forall|j: int| 0 <= j < i ==> !spec_accepted(#[trigger] outcomes[j], need_height),
            None => forall|j: int|
                0 <= j < outcomes.len() ==> !spec_accepted(#[trigger] outcomes[j], need_height),
        },
    decreases outcomes.len(),
{
    if outcomes.len() > 0 {
        lemma_first_accepted(outcomes.drop_last(), need_height);
        assert forall|j: int| 0 <= j < outcomes.len() - 1 implies outcomes[j]
            == #[trigger] outcomes.drop_last()[j] by {}
        match spec_first_accepted(outcomes.drop_last(), need_height) {
            Some(i) => {
                assert(outcomes[i] == outcomes.drop_last()[i]);
                assert forall|j: int| 0 <= j < i implies !spec_accepted(
                    #[trigger] outcomes[j],
                    need_height,
                ) by {
                    assert(outcomes[j] == outcomes.drop_last()[j]);
                }
            },
            None => {
                assert forall|j: int| 0 <= j < outcomes.len() - 1 implies !spec_accepted(
                    #[trigger] outcomes[j],
                    need_height,
                ) by {
                    assert(outcomes[j] == outcomes.drop_last()[j]);
                }
            },
        }
    }
}

fn accepted(outcome: ProbeOutcome, need_height: bool) -> (r: bool)
    ensures
        r == spec_accepted(outcome, need_height),
{
    match outcome {
        ProbeOutcome::Connected { version } => !need_height || version > 0,
        _ => false,
    }
}

/// The place of the first of the first `limit` tries that can be taken.
fn first_accepted(outcomes: &Vec<ProbeOutcome>, limit: usize, need_height: bool) -> (r: Option<
    usize,
>)
    requires
        limit <= outcomes@.len(),
    ensures
        match spec_first_accepted(outcomes@.take(limit as int), need_height) {
            Some(i) => 0 <= i < limit && r == Some(i as usize),
            None => r is None,
        },
{
    proof {
        lemma_first_accepted(outcomes@.take(limit as int), need_height);
    }
    let mut i: usize = 0;
    assert(outcomes@.take(0).len() == 0);
    while i < limit
        invariant
            i <= limit <= outcomes@.len(),
            spec_first_accepted(outcomes@.take(i as int), need_height) is None,
        decreases limit - i,
    {
        let ghost next = outcomes@.take(i + 1);
        assert(next.drop_last() =~= outcomes@.take(i as int));
        assert(next.last() == outcomes@[i as int]);
        if accepted(outcomes[i], need_height) {
            proof {
                lemma_first_accepted_extends(outcomes@, i + 1, limit as int, need_height);
            }
            return Some(i);
        }
        i = i + 1;
    }
    None
}

proof fn lemma_first_accepted_extends(
    outcomes: Seq<ProbeOutcome>,
    k: int,
    limit: int,
    need_height: bool,
)
    requires
        0 <= k <= limit <= outcomes.len(),
        spec_first_accepted(outcomes.take(k), need_height) is Some,
    ensures
        spec_first_accepted(outcomes.take(limit), need_height) == spec_first_accepted(
            outcomes.take(k),
            need_height,
        ),
    decreases limit - k,
{
    if k < limit {
        lemma_first_accepted_extends(outcomes, k, limit - 1, need_height);
        assert(outcomes.take(limit).drop_last() =~= outcomes.take(limit - 1));
    }
}

/// The number of configured nodes: none where no list is configured.
pub open spec fn spec_node_count(upstream_nodes: Option<usize>) -> int {
    match upstream_nodes {
        Some(n) => n as int,
        None => 0,
    }
}

/// The tries that count: those for which there is a node.
pub open spec fn spec_counted(outcomes: Seq<ProbeOutcome>, nodes: int) -> Seq<ProbeOutcome> {
    if outcomes.len() <= nodes {
        outcomes
    } else {
        outcomes.take(nodes)
    }
}

/// The next step of a search through the configured nodes in their order:
/// the first node that answers is taken, whatever the height of its chain.
pub open spec fn spec_get_client(upstream_nodes: Option<usize>, outcomes: Seq<ProbeOutcome>) -> ClientSearch {
    let nodes = spec_node_count(upstream_nodes);
    match spec_first_accepted(spec_counted(outcomes, nodes), false) {
        Some(i) => ClientSearch::Found(i as usize),
        None => if outcomes.len() < nodes {
            ClientSearch::Probe(outcomes.len() as usize)
        } else {
            ClientSearch::Exhausted
        },
    }
}

/// Says what a search through the configured upstream nodes does next.
/// `upstream_nodes` is the length of the configured list, if one is
/// configured, and `outcomes` is what came of the tries so far, in the order
/// of the list.
pub fn get_client(upstream_nodes: Option<usize>, outcomes: &Vec<ProbeOutcome>) -> (r: ClientSearch)
    ensures
        r == spec_get_client(upstream_nodes, outcomes@),
{
    let nodes: usize = match upstream_nodes {
        Some(n) => n,
        None => 0,
    };
    let limit: usize = if outcomes.len() <= nodes {
        outcomes.len()
    } else {
        nodes
    };
    assert(outcomes@.take(outcomes@.len() as int) =~= outcomes@);
    match first_accepted(outcomes, limit, false) {
        Some(i) => ClientSearch::Found(i),
        None => if outcomes.len() < nodes {
            ClientSearch::Probe(outcomes.len())
        } else {
            ClientSearch::Exhausted
        },
    }
}

/// The next step of a search through the nodes in a given order: the first
/// node that answers with a chain that has a height is taken.
pub open spec fn spec_find_a_remote_jsonrpc(order: Seq<usize>, outcomes: Seq<ProbeOutcome>) -> ClientSearch {
    match spec_first_accepted(spec_counted(outcomes, order.len() as int), true) {
        Some(k) => ClientSearch::Found(order[k]),
        None => if outcomes.len() < order.len() {
            ClientSearch::Probe(order[outcomes.len() as int])
        } else {
            ClientSearch::Exhausted
        },
    }
}

/// Says what a search through the upstream nodes does next, where the nodes
/// are tried in the order that `order` gives: `outcomes` is what came of the
/// tries so far, the first of them for the node at `order[0]`.
pub fn find_a_remote_jsonrpc(order: &Vec<usize>, outcomes: &Vec<ProbeOutcome>) -> (r: ClientSearch)
    ensures
        r == spec_find_a_remote_jsonrpc(order@, outcomes@),
{
    let limit: usize = if outcomes.len() <= order.len() {
        outcomes.len()
    } else {
        order.len()
    };
    assert(outcomes@.take(outcomes@.len() as int) =~= outcomes@);
    match first_accepted(outcomes, limit, true) {
        Some(k) => ClientSearch::Found(order[k]),
        None => if outcomes.len() < order.len() {
            ClientSearch::Probe(order[outcomes.len()])
        } else {
            ClientSearch::Exhausted
        },
    }
}

/// An order in which to try `count` upstream nodes: each of them once, in an
/// order that is left to chance.
pub fn upstream_probe_order(count: usize) -> (order: Vec<usize>)
    ensures
        order@.to_multiset() == Seq::new(count as nat, |i: int| i as usize).to_multiset(),
{
    let mut places: Vec<usize> = Vec::new();
    let mut i: usize = 0;
    while i < count
        invariant
            i <= count,
            places@ == Seq::new(i as nat, |j: int| j as usize),
        decreases count - i,
    {
        places.push(i);
        assert(places@ =~= Seq::new((i + 1) as nat, |j: int| j as usize));
        i = i + 1;
    }
    choose_all(&places)
}

/// The address to make a client for: the one that is given, or the default
/// node where none is.
pub fn make_client<'a>(url: Option<&'a str>) -> (r: &'a str)
    ensures
        r@ == match url {
            Some(u) => u@,
            None => spec_default_node_url(),
        },
{
    match url {
        Some(u) => u,
        None => "http://localhost:8080",
    }
}

/// The address of the operator's own node.
pub fn default_local_client(profile: &Profile) -> (r: &str)
    requires
        profile.default_node is Some,
    ensures
        r@ == profile.default_node.unwrap()@,
{
    match &profile.default_node {
        Some(u) => make_client(Some(u.as_str())),
        None => make_client(None),
    }
}

/// Points the configuration at the one node of a test swarm, as the own node
/// and as the only upstream node, and gives the address to make a client for.
pub fn swarm_test_client(profile: &mut Profile, url: String) -> (r: String)
    ensures
        r@ == url@,
        final(profile).default_node matches Some(d) && d@ == url@,
        final(profile).upstream_nodes matches Some(l) && l@.len() == 1 && l@[0]@ == url@,
{
    let mut upstream: Vec<String> = Vec::new();
    upstream.push(url.clone());
    profile.default_node = Some(url.clone());
    profile.upstream_nodes = Some(upstream);
    url
}

/// A stage of picking a client at which it can fail.
#[derive(Clone, Copy, Debug, PartialEq, Eq, Structural)]
pub enum PickStage {
    Waypoint,
    LocalClient,
    RemoteClient,
    SyncCheck,
}

/// What came of one stage of picking a client.
#[derive(Clone, Copy, Debug, PartialEq, Eq, Structural)]
pub enum StageResult {
    Failed,
    Done,
    /// The answer of the sync check: whether the own node is in sync.
    Synced(bool),
}

/// What to do next when picking a client.
#[derive(Clone, Copy, Debug, PartialEq, Eq, Structural)]
pub enum PickStep {
    /// Connect to the test swarm: its client, or its failure, is the answer.
    ConnectSwarm,
    ReadWaypoint,
    ConnectLocal,
    FindRemote,
    /// Compare the own node's state with the remote node's.
    CheckSync,
    UseLocal,
    UseRemote,
    Fail(PickStage),
}

/// With a swarm, its client is picked. Else the waypoint is read, a client
/// for the own node and one for a remote node are made, and the own node is
/// compared with the remote one: in sync, the own node is picked, else the
/// remote one. The first stage that fails ends the picking.
pub open spec fn spec_pick_client(is_swarm: bool, progress: Seq<StageResult>) -> PickStep {
    if is_swarm {
        PickStep::ConnectSwarm
    } else if progress.len() == 0 {
        PickStep::ReadWaypoint
    } else if progress[0] is Failed {
        PickStep::Fail(PickStage::Waypoint)
    } else if progress.len() == 1 {
        PickStep::ConnectLocal
    } else if progress[1] is Failed {
        PickStep::Fail(PickStage::LocalClient)
    } else if progress.len() == 2 {
        PickStep::FindRemote
    } else if progress[2] is Failed {
        PickStep::Fail(PickStage::RemoteClient)
    } else if progress.len() == 3 {
        PickStep::CheckSync
    } else {
        match progress[3] {
            StageResult::Synced(true) => PickStep::UseLocal,
            StageResult::Synced(false) => PickStep::UseRemote,
            _ => PickStep::Fail(PickStage::SyncCheck),
        }
    }
}

fn failed(r: &StageResult) -> (b: bool)
    ensures
        b == (*r is Failed),
{
    match r {
        StageResult::Failed => true,
        _ => false,
    }
}

/// Says what picking a client does next: `is_swarm` is whether a test swarm
/// is given, and `progress` is what came of the stages so far, in their
/// order.
pub fn pick_client(is_swarm: bool, progress: &Vec<StageResult>) -> (r: PickStep)
    ensures
        r == spec_pick_client(is_swarm, progress@),
{
    if is_swarm {
        PickStep::ConnectSwarm
    } else if progress.len() == 0 {
        PickStep::ReadWaypoint
    } else if failed(&progress[0]) {
        PickStep::Fail(PickStage::Waypoint)
    } else if progress.len() == 1 {
        PickStep::ConnectLocal
    } else if failed(&progress[1]) {
        PickStep::Fail(PickStage::LocalClient)
    } else if progress.len() == 2 {
        PickStep::FindRemote
    } else if failed(&progress[2]) {
        PickStep::Fail(PickStage::RemoteClient)
    } else if progress.len() == 3 {
        PickStep::CheckSync
    } else {
        match progress[3] {
            StageResult::Synced(true) => PickStep::UseLocal,
            StageResult::Synced(false) => PickStep::UseRemote,
            _ => PickStep::Fail(PickStage::SyncCheck),
        }
    }
}

} // verus!
