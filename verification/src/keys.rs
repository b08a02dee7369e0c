//! A node's key pair and its protobuf encoding, as key files hold it.

use vstd::prelude::*;
use libp2p::identity::{DecodingError, Keypair};

verus! {

#[verifier::external_type_specification]
#[verifier::external_body]
pub struct ExKeypair(Keypair);

#[verifier::external_type_specification]
#[verifier::external_body]
pub struct ExDecodingError(DecodingError);

/// The key pair that a protobuf encoding decodes to, if any.
pub uninterp spec fn keypair_decoding(bytes: Seq<u8>) -> Option<Keypair>;

/// The protobuf encoding of a key pair, if it has one.
pub uninterp spec fn keypair_encoding(key: Keypair) -> Option<Seq<u8>>;

/// `Keypair::from_protobuf_encoding`.
#[verifier::external_body]
fn decode_keypair(bytes: &[u8]) -> (r: Result<Keypair, DecodingError>)
    ensures
        r is Ok <==> keypair_decoding(bytes@) is Some,
        r is Ok ==> keypair_decoding(bytes@) == Some(r->Ok_0),
{
    Keypair::from_protobuf_encoding(bytes)
}

/// `Keypair::to_protobuf_encoding`.
#[verifier::external_body]
fn encode_keypair(key: &Keypair) -> (r: Result<Vec<u8>, DecodingError>)
    ensures
        r is Ok <==> keypair_encoding(*key) is Some,
        r is Ok ==> keypair_encoding(*key) == Some(r->Ok_0@),
{
    key.to_protobuf_encoding()
}

/// The key pair that the contents of a key file encode.
pub fn key_from_protobuf(buffer: &[u8]) -> (r: Result<Keypair, DecodingError>)
    ensures
        match r {
            Ok(key) => keypair_decoding(buffer@) == Some(key),
            Err(_) => keypair_decoding(buffer@) is None,
        },
{
    decode_keypair(buffer)
}

/// The contents of a key file for a key pair.
pub fn key_to_protobuf(key: &Keypair) -> (r: Result<Vec<u8>, DecodingError>)
    ensures
        match r {
            Ok(bytes) => keypair_encoding(*key) == Some(bytes@),
            Err(_) => keypair_encoding(*key) is None,
        },
{
    encode_keypair(key)
}

} // verus!
