use dtb_node::communication_types::{
    DirectoryRequest, GetValueResponse, InnerRequestValue, InnerResponseValue,
};
use dtb_node::db::{Database, DatabaseType, Value};
use dtb_node::errors::DirectorySpecificErrors;
use dtb_node::jobs::RequestJobState;
use dtb_node::node::{KadEvent, Node, NodeAction};
use dtb_node::peers::peer_id_from_multiaddr;
use libp2p::{Multiaddr, PeerId};

fn address() -> Multiaddr {
    "/ip4/127.0.0.1/tcp/4001".parse().unwrap()
}

fn new_node() -> (Node, PeerId) {
    let local = PeerId::random();
    (Node::new(DatabaseType::create(true), local, address()), local)
}

fn stored(node: &Node, key: &[u8]) -> Option<Value> {
    node.database().get(key)
}

fn object_request(key: &[u8], source: Multiaddr) -> DirectoryRequest {
    DirectoryRequest { key: key.to_vec(), request_type: InnerRequestValue::ObjectRequest { source } }
}

fn requester_address(peer: PeerId) -> Multiaddr {
    format!("/ip4/10.0.0.2/tcp/4002/p2p/{}", peer).parse().unwrap()
}

#[test]
fn add_then_get_returns_object() {
    let (mut node, _) = new_node();
    let (r, actions) = node.add_new_value(b"key".to_vec(), vec![1, 2, 3]);
    assert!(r.is_ok());
    assert_eq!(actions.len(), 1);
    assert!(matches!(&actions[0], NodeAction::PublishKey { key } if key == b"key"));
    let (r, actions) = node.get_value(b"key".to_vec());
    assert!(matches!(r, Ok(GetValueResponse::Owner(v)) if v == vec![1, 2, 3]));
    assert!(actions.is_empty());
}

#[test]
fn add_existing_key_is_refused() {
    let (mut node, _) = new_node();
    let _ = node.add_new_value(b"key".to_vec(), vec![1]);
    let (r, actions) = node.add_new_value(b"key".to_vec(), vec![2]);
    match r {
        Err(e) => {
            assert_eq!(e.key, b"key".to_vec());
            assert_eq!(e.to_string(), "Key [107, 101, 121] already exists");
        },
        Ok(()) => panic!("a known key was added again"),
    }
    assert!(actions.is_empty());
    let (r, _) = node.get_value(b"key".to_vec());
    assert!(matches!(r, Ok(GetValueResponse::Owner(v)) if v == vec![1]));
}

#[test]
fn get_unknown_key_fails() {
    let (mut node, _) = new_node();
    let (r, actions) = node.get_value(b"nope".to_vec());
    assert!(matches!(r, Err(DirectorySpecificErrors::KeyDoesNotExist(e)) if e.key == b"nope".to_vec()));
    assert!(actions.is_empty());
}

#[test]
fn gossip_records_pointer_and_read_asks_that_peer_once() {
    let (mut node, local) = new_node();
    let source = PeerId::random();
    node.handle_gossip_message(source, b"k".to_vec());
    match stored(&node, b"k") {
        Some(Value::Pointer(p)) => assert_eq!(p, source.to_string()),
        _ => panic!("expected a pointer"),
    }
    let (r, actions) = node.try_get_value(b"k".to_vec()).unwrap();
    assert!(matches!(r, Ok(GetValueResponse::Requested(RequestJobState::Waiting))));
    assert_eq!(actions.len(), 1);
    match &actions[0] {
        NodeAction::SendRequest { peer, request } => {
            assert_eq!(*peer, source);
            assert_eq!(request.key, b"k".to_vec());
            match &request.request_type {
                InnerRequestValue::ObjectRequest { source } => {
                    let expected: Multiaddr = format!("/ip4/127.0.0.1/tcp/4001/p2p/{}", local).parse().unwrap();
                    assert_eq!(*source, expected);
                },
                _ => panic!("expected an object request"),
            }
        },
        _ => panic!("expected a request"),
    }
    assert!(matches!(node.job(b"k").unwrap().state, RequestJobState::Waiting));
    let (r, actions) = node.get_value(b"k".to_vec());
    assert!(matches!(r, Ok(GetValueResponse::Requested(RequestJobState::Waiting))));
    assert!(actions.is_empty());
}

#[test]
fn gossip_keeps_existing_pointer() {
    let (mut node, _) = new_node();
    let first = PeerId::random();
    let second = PeerId::random();
    node.handle_gossip_message(first, b"k".to_vec());
    node.handle_gossip_message(second, b"k".to_vec());
    match stored(&node, b"k") {
        Some(Value::Pointer(p)) => assert_eq!(p, first.to_string()),
        _ => panic!("expected a pointer"),
    }
}

#[test]
fn arrival_finishes_job_and_read_returns_object() {
    let (mut node, _) = new_node();
    let source = PeerId::random();
    node.handle_gossip_message(source, b"k".to_vec());
    let _ = node.get_value(b"k".to_vec());
    let arrival = DirectoryRequest {
        key: b"k".to_vec(),
        request_type: InnerRequestValue::ObjectOwnershipSend { value: vec![42] },
    };
    let outcome = node.try_handle_request(arrival, source).unwrap();
    assert!(outcome.actions.is_empty());
    assert!(outcome.redirect.is_none());
    match outcome.response {
        Ok(r) => {
            assert_eq!(r.key, b"k".to_vec());
            assert!(matches!(r.response_type, InnerResponseValue::ReceivedIncomingRequest));
        },
        Err(_) => panic!("the arrival was refused"),
    }
    assert!(matches!(node.job(b"k").unwrap().state, RequestJobState::Finished));
    let (r, actions) = node.get_value(b"k".to_vec());
    assert!(matches!(r, Ok(GetValueResponse::Owner(v)) if v == vec![42]));
    assert!(actions.is_empty());
    assert!(node.job(b"k").is_none());
}

#[test]
fn arrival_without_job_is_not_handled() {
    let (mut node, _) = new_node();
    let _ = node.add_new_value(b"k".to_vec(), vec![1]);
    let arrival = DirectoryRequest {
        key: b"k".to_vec(),
        request_type: InnerRequestValue::ObjectOwnershipSend { value: vec![2] },
    };
    assert!(node.try_handle_request(arrival, PeerId::random()).is_none());
    assert!(matches!(stored(&node, b"k"), Some(Value::Direct(v)) if v == vec![1]));
}

#[test]
fn idle_owner_sends_object_and_points_to_peer() {
    let (mut node, _) = new_node();
    let _ = node.add_new_value(b"k".to_vec(), vec![7]);
    let asker = PeerId::random();
    let via = PeerId::random();
    let outcome = node.try_handle_request(object_request(b"k", requester_address(asker)), via).unwrap();
    assert_eq!(outcome.actions.len(), 1);
    match &outcome.actions[0] {
        NodeAction::SendObject { key, value, requester } => {
            assert_eq!(key, &b"k".to_vec());
            assert_eq!(value, &vec![7]);
            assert_eq!(*requester, requester_address(asker));
        },
        _ => panic!("expected the object to be sent"),
    }
    assert!(outcome.response.is_ok());
    assert_eq!(outcome.redirect, Some(via));
    assert!(matches!(stored(&node, b"k"), Some(Value::Direct(_))));
    node.redirect_pointer(b"k".to_vec(), via);
    match stored(&node, b"k") {
        Some(Value::Pointer(p)) => assert_eq!(p, via.to_string()),
        _ => panic!("expected a pointer"),
    }
    let (_, actions) = node.get_value(b"k".to_vec());
    assert!(matches!(&actions[0], NodeAction::SendRequest { peer, .. } if *peer == via));
}

#[test]
fn idle_pointer_forwards_request() {
    let (mut node, _) = new_node();
    let holder = PeerId::random();
    node.handle_gossip_message(holder, b"k".to_vec());
    let asker = PeerId::random();
    let via = PeerId::random();
    let outcome = node.handle_request(object_request(b"k", requester_address(asker)), via);
    assert_eq!(outcome.actions.len(), 1);
    match &outcome.actions[0] {
        NodeAction::SendRequest { peer, request } => {
            assert_eq!(*peer, holder);
            assert!(matches!(&request.request_type, InnerRequestValue::ObjectRequest { source } if *source == requester_address(asker)));
        },
        _ => panic!("expected a forwarded request"),
    }
    assert_eq!(outcome.redirect, Some(via));
}

#[test]
fn waiting_node_queues_request_and_serves_it() {
    let (mut node, _) = new_node();
    let holder = PeerId::random();
    node.handle_gossip_message(holder, b"k".to_vec());
    let _ = node.get_value(b"k".to_vec());
    let asker = PeerId::random();
    let via = PeerId::random();
    let outcome = node.handle_request(object_request(b"k", requester_address(asker)), via);
    assert!(outcome.actions.is_empty());
    assert!(outcome.redirect.is_none());
    let second_asker = PeerId::random();
    let second_via = PeerId::random();
    let outcome = node.handle_request(object_request(b"k", requester_address(second_asker)), second_via);
    assert_eq!(outcome.actions.len(), 1);
    assert!(matches!(&outcome.actions[0], NodeAction::SendRequest { peer, request }
        if *peer == via && matches!(&request.request_type, InnerRequestValue::ObjectRequest { source } if *source == requester_address(second_asker))));
    let arrival = DirectoryRequest {
        key: b"k".to_vec(),
        request_type: InnerRequestValue::ObjectOwnershipSend { value: vec![5, 5] },
    };
    let _ = node.handle_request(arrival, holder);
    let (r, actions) = node.get_value(b"k".to_vec());
    assert!(matches!(r, Ok(GetValueResponse::Owner(v)) if v == vec![5, 5]));
    assert_eq!(actions.len(), 1);
    assert!(matches!(&actions[0], NodeAction::SendObject { value, requester, .. }
        if *value == vec![5, 5] && *requester == requester_address(asker)));
    match stored(&node, b"k") {
        Some(Value::Pointer(p)) => assert_eq!(p, second_via.to_string()),
        _ => panic!("expected a pointer"),
    }
    assert!(node.job(b"k").is_none());
}

#[test]
fn key_search_reports_whether_key_is_known() {
    let (mut node, _) = new_node();
    let _ = node.add_new_value(b"k".to_vec(), vec![1]);
    let search = |key: &[u8]| DirectoryRequest { key: key.to_vec(), request_type: InnerRequestValue::KeySearch };
    let outcome = node.handle_request(search(b"k"), PeerId::random());
    assert!(matches!(outcome.response, Ok(r) if matches!(r.response_type, InnerResponseValue::IsKeyFound(true))));
    let outcome = node.handle_request(search(b"x"), PeerId::random());
    assert!(matches!(outcome.response, Ok(r) if matches!(r.response_type, InnerResponseValue::IsKeyFound(false))));
}

#[test]
fn object_request_for_unknown_key_is_not_handled() {
    let (mut node, _) = new_node();
    let r = node.try_handle_request(object_request(b"k", requester_address(PeerId::random())), PeerId::random());
    assert!(r.is_none());
}

#[test]
fn object_request_from_address_without_peer_is_not_handled() {
    let (mut node, _) = new_node();
    let _ = node.add_new_value(b"k".to_vec(), vec![1]);
    let r = node.try_handle_request(object_request(b"k", address()), PeerId::random());
    assert!(r.is_none());
}

#[test]
fn pointer_that_is_no_peer_id_is_not_followed() {
    let mut db = DatabaseType::create(true);
    db.insert(b"k".to_vec(), Value::Pointer("not a peer".to_string()));
    let mut node = Node::new(db, PeerId::random(), address());
    assert!(node.try_get_value(b"k".to_vec()).is_none());
    assert!(node.job(b"k").is_none());
}

#[test]
fn own_address_with_other_peer_is_refused() {
    let other = PeerId::random();
    let addr: Multiaddr = format!("/ip4/127.0.0.1/tcp/4001/p2p/{}", other).parse().unwrap();
    let mut node = Node::new(DatabaseType::create(true), PeerId::random(), addr);
    node.handle_gossip_message(PeerId::random(), b"k".to_vec());
    assert!(node.try_get_value(b"k".to_vec()).is_none());
}

#[test]
fn own_address_with_own_peer_is_kept() {
    let local = PeerId::random();
    let addr: Multiaddr = format!("/ip4/127.0.0.1/tcp/4001/p2p/{}", local).parse().unwrap();
    let mut node = Node::new(DatabaseType::create(true), local, addr.clone());
    node.handle_gossip_message(PeerId::random(), b"k".to_vec());
    let (_, actions) = node.try_get_value(b"k".to_vec()).unwrap();
    assert!(matches!(&actions[0], NodeAction::SendRequest { request, .. }
        if matches!(&request.request_type, InnerRequestValue::ObjectRequest { source } if *source == addr)));
}

#[test]
fn kad_events() {
    assert_eq!(
        Node::handle_kad_event(KadEvent::ClosestPeersFound { peers: vec![] }).err().unwrap(),
        "Query finished with no closest peers."
    );
    assert!(Node::handle_kad_event(KadEvent::ClosestPeersFound { peers: vec![PeerId::random()] }).unwrap().is_empty());
    let peer = PeerId::random();
    let actions = Node::handle_kad_event(KadEvent::RoutingUpdated { peer }).unwrap();
    assert!(matches!(&actions[..], [NodeAction::AddExplicitPeer { peer: p }] if *p == peer));
    let actions = Node::handle_kad_event(KadEvent::RoutablePeer { peer, address: address() }).unwrap();
    assert!(matches!(&actions[..], [NodeAction::AddExplicitPeer { peer: p }, NodeAction::Dial { address: a }] if *p == peer && *a == address()));
    let actions = Node::handle_kad_event(KadEvent::PendingRoutablePeer { peer, address: address() }).unwrap();
    assert!(matches!(&actions[..], [NodeAction::Dial { address: a }] if *a == address()));
    assert!(Node::handle_kad_event(KadEvent::QueryProgressed).unwrap().is_empty());
    assert!(Node::handle_kad_event(KadEvent::Other).unwrap().is_empty());
}

#[test]
fn peer_id_from_multiaddr_finds_first_peer() {
    let peer = PeerId::random();
    let addr: Multiaddr = format!("/ip4/1.2.3.4/tcp/1/p2p/{}", peer).parse().unwrap();
    assert_eq!(peer_id_from_multiaddr(addr).unwrap(), peer);
    let second = PeerId::random();
    let addr: Multiaddr = format!("/p2p/{}/p2p-circuit/p2p/{}", peer, second).parse().unwrap();
    assert_eq!(peer_id_from_multiaddr(addr).unwrap(), peer);
    assert_eq!(peer_id_from_multiaddr(address()).unwrap_err(), "Multiaddr does not contain a PeerId");
}

#[test]
fn gossip_keeps_received_object() {
    let (mut node, _) = new_node();
    let holder = PeerId::random();
    node.handle_gossip_message(holder, b"k".to_vec());
    let _ = node.get_value(b"k".to_vec());
    let arrival = DirectoryRequest {
        key: b"k".to_vec(),
        request_type: InnerRequestValue::ObjectOwnershipSend { value: vec![1] },
    };
    let _ = node.handle_request(arrival, holder);
    node.handle_gossip_message(PeerId::random(), b"k".to_vec());
    assert!(matches!(stored(&node, b"k"), Some(Value::Direct(v)) if v == vec![1]));
    let (r, _) = node.try_get_value(b"k".to_vec()).unwrap();
    assert!(matches!(r, Ok(GetValueResponse::Owner(v)) if v == vec![1]));
}

#[test]
fn gossip_keeps_owned_object() {
    let (mut node, _) = new_node();
    let _ = node.add_new_value(b"k".to_vec(), vec![9]);
    node.handle_gossip_message(PeerId::random(), b"k".to_vec());
    assert!(matches!(stored(&node, b"k"), Some(Value::Direct(v)) if v == vec![9]));
}

#[test]
fn every_step_of_a_handover_is_served() {
    let (mut owner, _) = new_node();
    let (mut reader, reader_peer) = new_node();
    let _ = owner.add_new_value(b"k".to_vec(), vec![3, 1, 4]);
    let owner_peer = PeerId::random();
    reader.handle_gossip_message(owner_peer, b"k".to_vec());
    let (_, actions) = reader.try_get_value(b"k".to_vec()).unwrap();
    let request = match actions.into_iter().next() {
        Some(NodeAction::SendRequest { request, .. }) => request,
        _ => panic!("expected a request"),
    };
    let outcome = owner.try_handle_request(request, reader_peer).unwrap();
    let (key, value) = match outcome.actions.into_iter().next() {
        Some(NodeAction::SendObject { key, value, .. }) => (key, value),
        _ => panic!("expected the object"),
    };
    owner.redirect_pointer(b"k".to_vec(), outcome.redirect.unwrap());
    let arrival = DirectoryRequest { key, request_type: InnerRequestValue::ObjectOwnershipSend { value } };
    assert!(reader.try_handle_request(arrival, owner_peer).unwrap().response.is_ok());
    let (r, _) = reader.try_get_value(b"k".to_vec()).unwrap();
    assert!(matches!(r, Ok(GetValueResponse::Owner(v)) if v == vec![3, 1, 4]));
    match stored(&owner, b"k") {
        Some(Value::Pointer(p)) => assert_eq!(p, reader_peer.to_string()),
        _ => panic!("the old owner should point to the reader"),
    }
    let (r, _) = owner.try_get_value(b"k".to_vec()).unwrap();
    assert!(matches!(r, Ok(GetValueResponse::Requested(RequestJobState::Waiting))));
}
