use dtb_node::cli::Cli;
use dtb_node::errors::{
    DirectorySpecificErrors, KeyAlreadyExists, KeyDoesNotExist, NoValueOrPointerFound, UnexpectedRequest,
};
use dtb_node::jobs::{RequestJob, RequestJobState, SearchingJobState, WithRequestInfo};
use dtb_node::text::{append_decimal, bytes_to_text};
use libp2p::{Multiaddr, PeerId};

#[test]
fn bytes_are_written_like_debug() {
    assert_eq!(bytes_to_text(&[]), "[]");
    assert_eq!(bytes_to_text(&[7]), "[7]");
    assert_eq!(bytes_to_text(&[0, 10, 255]), "[0, 10, 255]");
    let v: Vec<u8> = (0..=255).collect();
    assert_eq!(bytes_to_text(&v), format!("{:?}", v));
}

#[test]
fn decimal_numbers() {
    let mut s = String::from("n=");
    append_decimal(&mut s, 0);
    assert_eq!(s, "n=0");
    let mut s = String::new();
    append_decimal(&mut s, 1234567890123);
    assert_eq!(s, "1234567890123");
    let mut s = String::new();
    append_decimal(&mut s, u64::MAX);
    assert_eq!(s, u64::MAX.to_string());
}

#[test]
fn error_messages() {
    let key = vec![1u8, 2];
    assert_eq!(KeyDoesNotExist { key: key.clone() }.to_string(), "Key [1, 2] does not exist");
    assert_eq!(KeyAlreadyExists { key: key.clone() }.to_string(), "Key [1, 2] already exists");
    assert_eq!(UnexpectedRequest { key: key.clone() }.to_string(), "UnexpectedRequest for key [1, 2]");
    let e = NoValueOrPointerFound { peer_id: "a\"b".to_string(), key: vec![3], source: vec![] };
    assert_eq!(
        e.to_string(),
        format!("No Value or Pointer NoValueOrPointerFound {{ peer_id: {:?}, key: [3], source: [] }}", "a\"b")
    );
    let wrapped = DirectorySpecificErrors::KeyDoesNotExist(KeyDoesNotExist { key: vec![] });
    assert_eq!(wrapped.to_string(), "Key [] does not exist");
    let wrapped = DirectorySpecificErrors::UnexpectedRequest(UnexpectedRequest { key: vec![5] });
    assert_eq!(wrapped.to_string(), "UnexpectedRequest for key [5]");
}

#[test]
fn job_state_texts() {
    assert_eq!(SearchingJobState::Unknown.to_string(), "Unknown");
    assert_eq!(SearchingJobState::AskingGossip.to_string(), "AskingGossip");
    assert_eq!(
        SearchingJobState::AskingPeers { peers_asked: 3, negative_responses: 12 }.to_string(),
        "AskingPeers(peers_asked: 3, negative_responses: 12)"
    );
    assert_eq!(RequestJobState::Waiting.to_string(), "Waiting");
    assert_eq!(RequestJobState::Finished.to_string(), "Finished");
    let failed = RequestJobState::Failed(DirectorySpecificErrors::KeyAlreadyExists(KeyAlreadyExists { key: vec![] }));
    assert_eq!(failed.to_string(), "Failed");
    assert_eq!(
        RequestJobState::SearchingDirection(SearchingJobState::AskingGossip).to_string(),
        "SearchingDirection(AskingGossip)"
    );
}

#[test]
fn job_texts() {
    let job = RequestJob { state: RequestJobState::Waiting, with_request_info: None };
    assert_eq!(job.to_string(), "State: Waiting. No Request Info");
    let peer = PeerId::random();
    let requester: Multiaddr = "/ip4/10.0.0.1/tcp/4001".parse().unwrap();
    let info = WithRequestInfo { requester: requester.clone(), last_peer: peer };
    assert_eq!(info.to_string(), format!("Requester /ip4/10.0.0.1/tcp/4001. Last Peer {}", peer));
    let job = RequestJob { state: RequestJobState::Finished, with_request_info: Some(info) };
    assert_eq!(job.to_string(), format!("State: Finished. Requester /ip4/10.0.0.1/tcp/4001. Last Peer {}", peer));
}

fn cli(multiaddr: Option<&str>, ip: Option<&str>, port: Option<u16>) -> Cli {
    Cli {
        key_file: None,
        bootstrap_nodes: None,
        multiaddr: multiaddr.map(|s| s.to_string()),
        ip: ip.map(|s| s.to_string()),
        port,
        rpc_port: 3030,
    }
}

#[test]
fn listen_address_from_port() {
    assert_eq!(cli(None, None, Some(4001)).listen_address(), "/ip4/127.0.0.1/tcp/4001");
    assert_eq!(cli(None, Some("0.0.0.0"), Some(9)).listen_address(), "/ip4/0.0.0.0/tcp/9");
}

#[test]
fn listen_address_from_multiaddr() {
    assert_eq!(cli(Some("/ip4/1.2.3.4/tcp/5"), Some("9.9.9.9"), None).listen_address(), "/ip4/1.2.3.4/tcp/5");
}
