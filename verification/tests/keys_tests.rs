use dtb_node::keys::{key_from_protobuf, key_to_protobuf};
use libp2p::identity::Keypair;

#[test]
fn key_file_contents_round_trip() {
    let key = Keypair::generate_ed25519();
    let bytes = key_to_protobuf(&key).unwrap();
    assert!(!bytes.is_empty());
    let read = key_from_protobuf(&bytes).unwrap();
    assert_eq!(read.public(), key.public());
    assert_eq!(read.public().to_peer_id(), key.public().to_peer_id());
}

#[test]
fn garbage_is_not_a_key() {
    assert!(key_from_protobuf(&[1, 2, 3]).is_err());
    assert!(key_from_protobuf(&[]).is_err());
}
