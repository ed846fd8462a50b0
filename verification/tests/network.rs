use vintage::node::{IpAddress, NodeAddr};
use vintage::peer_manager::{PeerAddress, PeerInfo, PeerManager};
use vintage::request::NetworkRequestMgr;
use vintage::routing::{
    broadcast_targets, dispatch_incoming, route_outgoing, Incoming, MsgToBlockChain, MsgToNetwork,
    Network, NetworkMessageContent, NetworkMessagePayload, NetworkMsgHandler, Outgoing,
};
use vintage::vote::VoteTally;

fn node(last: u8, port: u16) -> NodeAddr {
    NodeAddr { ip: IpAddress::V4(u32::from_be_bytes([10, 0, 0, last])), port, flowinfo: 0, scope_id: 0 }
}

#[test]
fn request_ids_start_at_node_block_and_increase() {
    let mut mgr: NetworkRequestMgr<&str> = NetworkRequestMgr::new(2);
    let a = mgr.insert_request("a");
    let b = mgr.insert_request("b");
    assert_eq!(a, 2_000_000_000_000_000_001);
    assert_eq!(b, a + 1);
    assert_eq!(mgr.get(a), Some(&"a"));
    mgr.remove(a);
    assert_eq!(mgr.get(a), None);
    assert_eq!(mgr.get(b), Some(&"b"));
    let c = mgr.insert_request("c");
    assert_eq!(c, b + 1);
}

#[test]
fn request_ids_of_node_zero() {
    let mut mgr: NetworkRequestMgr<u8> = NetworkRequestMgr::new(0);
    assert_eq!(mgr.insert_request(1), 1);
}

#[test]
fn vote_ends_when_known_answer_reaches_count() {
    let mut tally = VoteTally::new(2);
    tally.write_data(node(1, 1), vec![1]);
    assert!(!tally.active());
    tally.write_data(node(2, 1), vec![2]);
    assert!(!tally.active());
    assert_eq!(tally.read_result(), None);
    tally.write_data(node(1, 1), vec![1]);
    assert!(!tally.active());
    tally.write_data(node(3, 1), vec![1]);
    assert!(tally.active());
    assert_eq!(tally.read_result(), Some((vec![node(1, 1), node(3, 1)], vec![1])));
}

#[test]
fn vote_of_one_is_not_ended_by_a_first_answer() {
    let mut tally = VoteTally::new(1);
    tally.write_data(node(1, 1), vec![5]);
    assert!(!tally.active());
    assert_eq!(tally.read_result(), Some((vec![node(1, 1)], vec![5])));
    tally.write_data(node(2, 1), vec![5]);
    assert!(tally.active());
}

#[test]
fn peers_are_added_once() {
    let mut pm = PeerManager::new(5);
    assert!(pm.add_peer(node(1, 80), "10.0.0.1:80", 100));
    assert!(!pm.add_peer(node(1, 80), "10.0.0.1:80", 200));
    assert!(pm.is_connected(&node(1, 80)));
    assert!(!pm.is_connected(&node(1, 81)));
    let statuses = pm.get_peer_statuses();
    assert_eq!(statuses.len(), 1);
    assert_eq!(statuses[0].info.name, "Node_10.0.0.1:80");
    assert!(statuses[0].connected_once);
    assert_eq!(statuses[0].last_seen, 100);
    assert_eq!(statuses[0].failed_attempts, 0);
}

#[test]
fn failing_peers_are_reconnected_then_dropped() {
    let mut pm = PeerManager::new(2);
    pm.add_peer(node(1, 80), "a", 0);
    pm.add_peer(node(2, 80), "b", 0);
    pm.update_peer_status(node(1, 80), false, 10);
    let again = pm.get_peers_to_reconnect();
    assert_eq!(again.len(), 1);
    assert_eq!(again[0].address, node(1, 80));
    pm.update_peer_status(node(1, 80), false, 20);
    pm.update_peer_status(node(1, 80), false, 30);
    assert!(pm.get_peers_to_reconnect().is_empty());
    pm.remove_unresponsive_peers();
    assert!(!pm.is_connected(&node(1, 80)));
    assert!(pm.is_connected(&node(2, 80)));
    pm.update_peer_status(node(2, 80), false, 40);
    pm.update_peer_status(node(2, 80), true, 50);
    let s = pm.get_peer_statuses();
    assert_eq!(s[0].failed_attempts, 0);
    assert_eq!(s[0].last_seen, 50);
}

#[test]
fn only_peers_seen_once_are_checked() {
    let mut pm = PeerManager::new(3);
    let other = PeerInfo { address: node(2, 80), name: "two".to_string(), propose_weight: 1, vote_weight: 1 };
    pm.load_peers(vec![other], 5);
    pm.update_peer_status(node(2, 80), true, 9);
    assert!(pm.peers_to_check().is_empty());
    pm.add_peer(node(1, 80), "a", 0);
    pm.add_peer(node(3, 80), "c", 0);
    assert_eq!(pm.peers_to_check(), vec![node(1, 80), node(3, 80)]);
}

#[test]
fn loaded_peers_replace_known_ones() {
    let mut pm = PeerManager::new(5);
    pm.add_peer(node(1, 80), "x", 0);
    let info = PeerInfo { address: node(1, 80), name: "one".to_string(), propose_weight: 3, vote_weight: 4 };
    let other = PeerInfo { address: node(2, 80), name: "two".to_string(), propose_weight: 1, vote_weight: 1 };
    pm.load_peers(vec![info.clone(), other.clone()], 7);
    let peers = pm.get_peers();
    assert_eq!(peers, vec![info, other]);
    assert!(!pm.get_peer_statuses()[0].connected_once);
    assert_eq!(PeerAddress::from_addr(node(1, 80)).port, Some(80));
}

#[test]
fn outgoing_messages_are_routed() {
    let me = node(9, 1);
    match route_outgoing::<u8>(me, MsgToNetwork::Request(node(1, 1), NetworkMsgHandler::BlockChain, 7, vec![1])) {
        Outgoing::Send(to, m) => {
            assert_eq!(to, node(1, 1));
            assert_eq!(m.sender, me);
            assert_eq!(m.receiver, Some(node(1, 1)));
            match m.payload {
                NetworkMessagePayload::Content(NetworkMessageContent::Request { request_id, request_content, .. }) => {
                    assert_eq!(request_id, 7);
                    assert_eq!(request_content, vec![1]);
                }
                _ => panic!("wrong payload"),
            }
        }
        _ => panic!("wrong route"),
    }
    match route_outgoing::<u8>(me, MsgToNetwork::ConsensusBroadcast(3)) {
        Outgoing::Broadcast(m) => {
            assert_eq!(m.receiver, None);
            assert!(matches!(m.payload, NetworkMessagePayload::Content(NetworkMessageContent::ConsensusBroadcast(3))));
        }
        _ => panic!("wrong route"),
    }
    assert!(matches!(route_outgoing::<u8>(me, MsgToNetwork::ConsensusMsgRelay(None, 3)), Outgoing::Drop));
}

#[test]
fn broadcasts_skip_the_sender() {
    let peers = vec![node(1, 1), node(2, 1), node(3, 1)];
    assert_eq!(broadcast_targets(&peers, node(2, 1)), vec![node(1, 1), node(3, 1)]);
}

#[test]
fn content_needs_a_handshake_first() {
    let content = NetworkMessagePayload::<u8>::Content(NetworkMessageContent::Broadcast {
        handler: NetworkMsgHandler::BlockChain,
        broadcast_content: vec![4],
    });
    let (peer, action) = dispatch_incoming(None, content);
    assert_eq!(peer, None);
    assert!(matches!(action, Incoming::Ignore));
    let (peer, action) = dispatch_incoming::<u8>(None, NetworkMessagePayload::Handshake(node(5, 5)));
    assert_eq!(peer, Some(node(5, 5)));
    assert!(matches!(action, Incoming::RegisterPeer(_)));
    let resp = NetworkMessagePayload::<u8>::Content(NetworkMessageContent::Response { request_id: 4, response_content: vec![1] });
    match dispatch_incoming(peer, resp) {
        (p, Incoming::OnResponse(n, id, data)) => {
            assert_eq!(p, Some(node(5, 5)));
            assert_eq!(n, node(5, 5));
            assert_eq!(id, 4);
            assert_eq!(data, vec![1]);
        }
        _ => panic!("wrong action"),
    }
    let bc = NetworkMessagePayload::<u8>::Content(NetworkMessageContent::Broadcast {
        handler: NetworkMsgHandler::BlockChain,
        broadcast_content: vec![4],
    });
    match dispatch_incoming(peer, bc) {
        (_, Incoming::ToBlockChain(MsgToBlockChain::Broadcast(n, c))) => {
            assert_eq!(n, node(5, 5));
            assert_eq!(c, vec![4]);
        }
        _ => panic!("wrong action"),
    }
}

#[test]
fn network_is_made_from_any_channels() {
    let Network {} = Network::create((1u8, "channels"));
}

#[test]
fn failing_peer_is_retried_five_rounds_then_dropped() {
    let mut pm = PeerManager::new(5);
    pm.add_peer(node(7, 80), "p", 0);
    for round in 1..=6u32 {
        for addr in pm.peers_to_check() {
            pm.update_peer_status(addr, false, round as u64);
        }
        let again = pm.get_peers_to_reconnect();
        pm.remove_unresponsive_peers();
        if round <= 5 {
            assert_eq!(pm.get_peer_statuses()[0].failed_attempts, round);
            assert_eq!(again.len(), 1);
            assert_eq!(again[0].address, node(7, 80));
            assert!(pm.is_connected(&node(7, 80)));
        } else {
            assert!(again.is_empty());
            assert!(!pm.is_connected(&node(7, 80)));
        }
    }
}
