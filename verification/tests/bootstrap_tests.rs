use dtb_node::bootstrap::{bootstrap_entries, try_bootstrap_entries};
use dtb_node::cli::Cli;
use dtb_node::db::DatabaseType;
use dtb_node::node::Node;
use libp2p::{Multiaddr, PeerId};

fn with_peer(port: u16, peer: PeerId) -> String {
    format!("/ip4/10.0.0.1/tcp/{}/p2p/{}", port, peer)
}

#[test]
fn bootstrap_entries_skip_local_peer_and_keep_order() {
    let local = PeerId::random();
    let a = PeerId::random();
    let b = PeerId::random();
    let nodes = vec![with_peer(1, a), with_peer(2, local), with_peer(3, b)];
    let entries = bootstrap_entries(&nodes, local);
    assert_eq!(entries.len(), 2);
    assert_eq!(entries[0].0, a);
    assert_eq!(entries[0].1, with_peer(1, a).parse::<Multiaddr>().unwrap());
    assert_eq!(entries[1].0, b);
    assert_eq!(entries[1].1, with_peer(3, b).parse::<Multiaddr>().unwrap());
}

#[test]
fn bootstrap_entries_of_nothing() {
    assert!(bootstrap_entries(&vec![], PeerId::random()).is_empty());
    assert!(try_bootstrap_entries(&vec![], PeerId::random()).unwrap().is_empty());
}

#[test]
fn try_bootstrap_entries_refuses_unusable_addresses() {
    let local = PeerId::random();
    let a = PeerId::random();
    assert_eq!(try_bootstrap_entries(&vec![with_peer(1, a)], local).unwrap().len(), 1);
    assert!(try_bootstrap_entries(&vec![with_peer(1, a), "not an address".to_string()], local).is_none());
    assert!(try_bootstrap_entries(&vec!["/ip4/10.0.0.1/tcp/1".to_string()], local).is_none());
}

#[test]
fn listen_multiaddr_parses_the_address() {
    let cli = Cli { key_file: None, bootstrap_nodes: None, multiaddr: None, ip: None, port: Some(4001), rpc_port: 1 };
    assert_eq!(cli.listen_multiaddr().unwrap(), "/ip4/127.0.0.1/tcp/4001".parse::<Multiaddr>().unwrap());
    let cli = Cli {
        key_file: None,
        bootstrap_nodes: None,
        multiaddr: Some("garbage".to_string()),
        ip: None,
        port: None,
        rpc_port: 1,
    };
    assert!(cli.listen_multiaddr().is_none());
}

#[test]
fn job_count_follows_jobs() {
    let mut node = Node::new(DatabaseType::create(true), PeerId::random(), "/ip4/127.0.0.1/tcp/1".parse().unwrap());
    assert_eq!(node.job_count(), 0);
    node.handle_gossip_message(PeerId::random(), b"a".to_vec());
    node.handle_gossip_message(PeerId::random(), b"b".to_vec());
    let _ = node.get_value(b"a".to_vec());
    let _ = node.get_value(b"b".to_vec());
    assert_eq!(node.job_count(), 2);
}
