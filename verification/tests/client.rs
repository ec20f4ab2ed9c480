use vm_adapter::client::{
    default_local_client, find_a_remote_jsonrpc, get_client, make_client, pick_client,
    swarm_test_client, upstream_probe_order, ClientSearch, PickStage, PickStep, ProbeOutcome,
    Profile, StageResult,
};
use vm_adapter::client::StageResult::{Done, Failed, Synced};

fn up(version: u64) -> ProbeOutcome {
    ProbeOutcome::Connected { version }
}

#[test]
fn get_client_without_upstream_nodes() {
    assert_eq!(get_client(None, &vec![]), ClientSearch::Exhausted);
    assert_eq!(get_client(Some(0), &vec![]), ClientSearch::Exhausted);
    assert_eq!(get_client(None, &vec![up(1)]), ClientSearch::Exhausted);
}

#[test]
fn get_client_takes_the_first_node_that_answers() {
    assert_eq!(get_client(Some(3), &vec![]), ClientSearch::Probe(0));
    assert_eq!(get_client(Some(3), &vec![ProbeOutcome::ClientFailed]), ClientSearch::Probe(1));
    let tried = vec![ProbeOutcome::ClientFailed, ProbeOutcome::MetadataFailed];
    assert_eq!(get_client(Some(3), &tried), ClientSearch::Probe(2));
    let tried = vec![ProbeOutcome::ClientFailed, ProbeOutcome::MetadataFailed, up(0)];
    assert_eq!(get_client(Some(3), &tried), ClientSearch::Found(2));
    let tried = vec![ProbeOutcome::ClientFailed, up(5), up(9)];
    assert_eq!(get_client(Some(3), &tried), ClientSearch::Found(1));
    let tried = vec![ProbeOutcome::ClientFailed; 3];
    assert_eq!(get_client(Some(3), &tried), ClientSearch::Exhausted);
    // A try for which there is no node does not count.
    let tried = vec![ProbeOutcome::ClientFailed, up(1)];
    assert_eq!(get_client(Some(1), &tried), ClientSearch::Exhausted);
}

#[test]
fn remote_search_follows_the_order_and_wants_a_height() {
    let order = vec![2, 0, 1];
    assert_eq!(find_a_remote_jsonrpc(&order, &vec![]), ClientSearch::Probe(2));
    assert_eq!(find_a_remote_jsonrpc(&order, &vec![up(0)]), ClientSearch::Probe(0));
    assert_eq!(
        find_a_remote_jsonrpc(&order, &vec![up(0), ProbeOutcome::MetadataFailed]),
        ClientSearch::Probe(1)
    );
    assert_eq!(
        find_a_remote_jsonrpc(&order, &vec![up(0), ProbeOutcome::MetadataFailed, up(7)]),
        ClientSearch::Found(1)
    );
    assert_eq!(find_a_remote_jsonrpc(&order, &vec![up(3)]), ClientSearch::Found(2));
    assert_eq!(
        find_a_remote_jsonrpc(&order, &vec![up(0), ProbeOutcome::ClientFailed, up(0)]),
        ClientSearch::Exhausted
    );
    assert_eq!(find_a_remote_jsonrpc(&vec![], &vec![]), ClientSearch::Exhausted);
    assert_eq!(find_a_remote_jsonrpc(&vec![], &vec![up(4)]), ClientSearch::Exhausted);
}

#[test]
fn probe_order_holds_each_node_once() {
    for count in [0usize, 1, 2, 7, 40] {
        let mut order = upstream_probe_order(count);
        assert_eq!(order.len(), count);
        order.sort();
        let expected: Vec<usize> = (0..count).collect();
        assert_eq!(order, expected);
    }
}

#[test]
fn probe_order_is_left_to_chance() {
    let in_order: Vec<usize> = (0..40).collect();
    let mut shuffled = false;
    for _ in 0..20 {
        if upstream_probe_order(40) != in_order {
            shuffled = true;
        }
    }
    assert!(shuffled);
}

#[test]
fn client_addresses() {
    assert_eq!(make_client(None), "http://localhost:8080");
    assert_eq!(make_client(Some("http://node:1")), "http://node:1");
    let mut profile = Profile { default_node: None, upstream_nodes: None };
    let url = swarm_test_client(&mut profile, String::from("http://swarm:9"));
    assert_eq!(url, "http://swarm:9");
    assert_eq!(profile.default_node, Some(String::from("http://swarm:9")));
    assert_eq!(profile.upstream_nodes, Some(vec![String::from("http://swarm:9")]));
    assert_eq!(default_local_client(&profile), "http://swarm:9");
}

#[test]
fn pick_client_steps() {
    assert_eq!(pick_client(true, &vec![]), PickStep::ConnectSwarm);
    assert_eq!(pick_client(true, &vec![Failed]), PickStep::ConnectSwarm);
    assert_eq!(pick_client(false, &vec![]), PickStep::ReadWaypoint);
    assert_eq!(pick_client(false, &vec![Failed]), PickStep::Fail(PickStage::Waypoint));
    assert_eq!(pick_client(false, &vec![Done]), PickStep::ConnectLocal);
    assert_eq!(pick_client(false, &vec![Done, Failed]), PickStep::Fail(PickStage::LocalClient));
    assert_eq!(pick_client(false, &vec![Done, Done]), PickStep::FindRemote);
    assert_eq!(
        pick_client(false, &vec![Done, Done, Failed]),
        PickStep::Fail(PickStage::RemoteClient)
    );
    assert_eq!(pick_client(false, &vec![Done, Done, Done]), PickStep::CheckSync);
    assert_eq!(pick_client(false, &vec![Done, Done, Done, Synced(true)]), PickStep::UseLocal);
    assert_eq!(pick_client(false, &vec![Done, Done, Done, Synced(false)]), PickStep::UseRemote);
    assert_eq!(
        pick_client(false, &vec![Done, Done, Done, Failed]),
        PickStep::Fail(PickStage::SyncCheck)
    );
    assert_eq!(
        pick_client(false, &vec![Done, Done, Done, Done]),
        PickStep::Fail(PickStage::SyncCheck)
    );
}
