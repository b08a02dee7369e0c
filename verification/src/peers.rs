//! Peer ids and multiaddresses of libp2p, and what the directory needs of them.

use vstd::prelude::*;
use vstd::string::StringExecFns;
use libp2p::{Multiaddr, PeerId};
use libp2p::multiaddr::Protocol;

verus! {

#[verifier::external_type_specification]
#[verifier::external_body]
pub struct ExPeerId(PeerId);

#[verifier::external_type_specification]
#[verifier::external_body]
pub struct ExMultiaddr(Multiaddr);

/// The text form (base-58) of a peer id.
pub uninterp spec fn peer_id_text(p: PeerId) -> Seq<char>;

/// The peer id that a text parses to, if any.
pub uninterp spec fn peer_id_parse(s: Seq<char>) -> Option<PeerId>;

/// The components of a multiaddress, each given as the peer id it names
/// when it is a `/p2p` component and as `None` otherwise.
pub uninterp spec fn multiaddr_components(a: Multiaddr) -> Seq<Option<PeerId>>;

/// The text form of a multiaddress.
pub uninterp spec fn multiaddr_text(a: Multiaddr) -> Seq<char>;

/// What `Multiaddr::from_str` gives for a text, if it parses.
pub uninterp spec fn multiaddr_parse(s: Seq<char>) -> Option<Multiaddr>;

/// What `Multiaddr::with_p2p` returns.
pub uninterp spec fn multiaddr_with_p2p(a: Multiaddr, p: PeerId) -> Result<Multiaddr, Multiaddr>;

/// A peer id whose text parses back to it, as every peer id's text does.
pub open spec fn valid_peer(p: PeerId) -> bool {
    peer_id_parse(peer_id_text(p)) == Some(p)
}

/// `Multiaddr` clones share their bytes: a clone is the value itself.
pub assume_specification[ <Multiaddr as Clone>::clone ](a: &Multiaddr) -> (r: Multiaddr)
    ensures
        r == *a,
;

/// Peer ids are equal exactly when they are the same value (`PartialEq` is
/// derived over the multihash, which is the whole of a peer id).
pub assume_specification[ <PeerId as PartialEq>::eq ](a: &PeerId, b: &PeerId) -> (r: bool)
    ensures
        r == (*a == *b),
;

/// `Multiaddr::from_str`, with its error turned into `None`.
#[verifier::external_body]
pub(crate) fn multiaddr_from_text(s: &str) -> (r: Option<Multiaddr>)
    ensures
        r == multiaddr_parse(s@),
{
    s.parse::<Multiaddr>().ok()
}

/// `PeerId::to_string` (its `Display`, the base-58 text). The text parses
/// back to the same peer id: `from_str` decodes the base-58 and rebuilds the
/// id from the bytes that `to_bytes` wrote.
#[verifier::external_body]
pub(crate) fn peer_id_to_text(p: &PeerId) -> (r: String)
    ensures
        r@ == peer_id_text(*p),
        peer_id_parse(r@) == Some(*p),
{
    p.to_string()
}

/// `Multiaddr::to_string` (its `Display`).
#[verifier::external_body]
pub(crate) fn multiaddr_to_text(a: &Multiaddr) -> (r: String)
    ensures
        r@ == multiaddr_text(*a),
{
    a.to_string()
}

/// `PeerId::from_str`, with its error turned into `None`.
#[verifier::external_body]
pub(crate) fn peer_id_from_text(s: &str) -> (r: Option<PeerId>)
    ensures
        r == peer_id_parse(s@),
{
    match s.parse::<PeerId>() {
        Ok(p) => Some(p),
        Err(_) => None,
    }
}

/// The components of `Multiaddr::iter`, a `/p2p` component given by its peer id.
#[verifier::external_body]
fn p2p_components(a: &Multiaddr) -> (r: Vec<Option<PeerId>>)
    ensures
        r@ == multiaddr_components(*a),
{
    a.iter().map(|c| match c {
        Protocol::P2p(p) => Some(p),
        _ => None,
    }).collect()
}

/// The last component of a multiaddress names a peer other than `p`.
pub open spec fn ends_with_other_peer(c: Seq<Option<PeerId>>, p: PeerId) -> bool {
    c.len() > 0 && c.last() is Some && c.last() != Some(p)
}

/// `Multiaddr::with_p2p`: the address is refused when it already ends with
/// another peer; it is kept when it ends with `p`; otherwise `/p2p/p` is appended.
#[verifier::external_body]
pub(crate) fn address_with_p2p(address: Multiaddr, p: PeerId) -> (r: Result<Multiaddr, Multiaddr>)
    ensures
        r == multiaddr_with_p2p(address, p),
        r is Err <==> ends_with_other_peer(multiaddr_components(address), p),
        r is Err ==> r->Err_0 == address,
        r is Ok ==> multiaddr_components(r->Ok_0) == (if multiaddr_components(address).len() > 0
            && multiaddr_components(address).last() == Some(p) {
            multiaddr_components(address)
        } else {
            multiaddr_components(address).push(Some(p))
        }),
{
    address.with_p2p(p)
}

/// Position `i` holds the first `/p2p` component.
pub open spec fn is_first_peer(c: Seq<Option<PeerId>>, i: int) -> bool {
    &&& 0 <= i < c.len()
    &&& c[i] is Some
    &&& forall|j: int| 0 <= j < i ==> c[j] is None
}

/// The peer id of the first `/p2p` component of a multiaddress, if any.
pub open spec fn multiaddr_peer(a: Multiaddr) -> Option<PeerId> {
    let c = multiaddr_components(a);
    if exists|i: int| is_first_peer(c, i) {
        c[choose|i: int| is_first_peer(c, i)]
    } else {
        None
    }
}

proof fn lemma_first_peer_unique(c: Seq<Option<PeerId>>, i: int, j: int)
    requires
        is_first_peer(c, i),
        is_first_peer(c, j),
    ensures
        i == j,
{
}

/// The peer id that a multiaddress carries in its first `/p2p` component.
pub fn peer_id_from_multiaddr(multiaddr: Multiaddr) -> (r: Result<PeerId, String>)
    ensures
        match r {
            Ok(p) => multiaddr_peer(multiaddr) == Some(p),
            Err(e) => multiaddr_peer(multiaddr) is None && e@ == "Multiaddr does not contain a PeerId"@,
        },
{
    let c = p2p_components(&multiaddr);
    let mut i: usize = 0;
    while i < c.len()
        invariant
            c@ == multiaddr_components(multiaddr),
            i <= c@.len(),
            forall|j: int| 0 <= j < i ==> c@[j] is None,
        decreases c@.len() - i,
    {
        if let Some(p) = c[i] {
            proof {
                assert(is_first_peer(c@, i as int));
                let k = choose|k: int| is_first_peer(c@, k);
                lemma_first_peer_unique(c@, i as int, k);
            }
            return Ok(p);
        }
        i += 1;
    }
    proof {
        if exists|k: int| is_first_peer(c@, k) {
            let k = choose|k: int| is_first_peer(c@, k);
            assert(c@[k] is None);
        }
    }
    Err(String::from_str("Multiaddr does not contain a PeerId"))
}

} // verus!

verus! {

/// The peer of a multiaddress is the one named by its first `/p2p`
/// component; an address without one has none.
pub proof fn law_multiaddr_peer_is_first(a: Multiaddr, i: int)
    ensures
        is_first_peer(multiaddr_components(a), i) ==> multiaddr_peer(a) == multiaddr_components(a)[i],
        (forall|j: int| 0 <= j < multiaddr_components(a).len() ==> #[trigger] multiaddr_components(a)[j] is None)
            ==> multiaddr_peer(a) is None,
{
    let c = multiaddr_components(a);
    if is_first_peer(c, i) {
        let k = choose|k: int| is_first_peer(c, k);
        lemma_first_peer_unique(c, i, k);
    }
    if exists|k: int| is_first_peer(c, k) {
        let k = choose|k: int| is_first_peer(c, k);
        assert(c[k] is Some);
    }
}

} // verus!
