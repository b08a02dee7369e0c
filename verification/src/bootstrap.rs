//! The nodes a new node joins the network through.

use vstd::prelude::*;
use libp2p::{Multiaddr, PeerId};
use crate::peers::{multiaddr_from_text, multiaddr_parse, multiaddr_peer, peer_id_from_multiaddr};

verus! {

/// The texts of a list of strings.
pub open spec fn texts(s: Seq<String>) -> Seq<Seq<char>> {
    s.map_values(|t: String| t@)
}

/// A bootstrap address is usable: it parses, and it names a peer.
pub open spec fn usable_bootstrap(text: Seq<char>) -> bool {
    &&& multiaddr_parse(text) is Some
    &&& multiaddr_peer(multiaddr_parse(text)->Some_0) is Some
}

/// The (peer id, address) pairs under which the bootstrap addresses go into
/// the routing table, in order, leaving out those of the node itself.
pub open spec fn bootstrap_spec(bootnodes: Seq<Seq<char>>, local_peer: PeerId) -> Seq<(PeerId, Multiaddr)>
    decreases bootnodes.len(),
{
    if bootnodes.len() == 0 {
        Seq::empty()
    } else {
        let before = bootstrap_spec(bootnodes.drop_last(), local_peer);
        let address = multiaddr_parse(bootnodes.last())->Some_0;
        let peer = multiaddr_peer(address)->Some_0;
        if peer == local_peer {
            before
        } else {
            before.push((peer, address))
        }
    }
}

/// The (peer id, address) pairs to add to the routing table for the
/// bootstrap addresses. Each address must parse and name a peer.
pub fn bootstrap_entries(bootnodes: &Vec<String>, local_peer: PeerId) -> (r: Vec<(PeerId, Multiaddr)>)
    requires
        forall|i: int| 0 <= i < bootnodes@.len() ==> usable_bootstrap(#[trigger] bootnodes@[i]@),
    ensures
        r@ == bootstrap_spec(texts(bootnodes@), local_peer),
{
    let ghost all = texts(bootnodes@);
    let mut entries: Vec<(PeerId, Multiaddr)> = Vec::new();
    let mut i: usize = 0;
    while i < bootnodes.len()
        invariant
            i <= bootnodes@.len(),
            all == texts(bootnodes@),
            forall|j: int| 0 <= j < bootnodes@.len() ==> usable_bootstrap(#[trigger] bootnodes@[j]@),
            entries@ == bootstrap_spec(all.take(i as int), local_peer),
        decreases bootnodes@.len() - i,
    {
        proof {
            assert(all.take(i as int + 1).drop_last() =~= all.take(i as int));
            assert(all.take(i as int + 1).last() == bootnodes@[i as int]@);
            assert(usable_bootstrap(bootnodes@[i as int]@));
        }
        let address = multiaddr_from_text(bootnodes[i].as_str()).unwrap();
        match peer_id_from_multiaddr(address.clone()) {
            Ok(peer) => {
                if !(peer == local_peer) {
                    entries.push((peer, address));
                }
            },
            Err(_) => {
                assert(false);
            },
        }
        i += 1;
    }
    assert(all.take(bootnodes@.len() as int) =~= all);
    entries
}

/// `bootstrap_entries` where every address parses and names a peer; `None`
/// where one does not.
pub fn try_bootstrap_entries(bootnodes: &Vec<String>, local_peer: PeerId) -> (r: Option<Vec<(PeerId, Multiaddr)>>)
    ensures
        (forall|i: int| 0 <= i < bootnodes@.len() ==> usable_bootstrap(#[trigger] bootnodes@[i]@)) <==> r is Some,
        r is Some ==> r->Some_0@ == bootstrap_spec(texts(bootnodes@), local_peer),
{
    let mut i: usize = 0;
    while i < bootnodes.len()
        invariant
            i <= bootnodes@.len(),
            forall|j: int| 0 <= j < i ==> usable_bootstrap(#[trigger] bootnodes@[j]@),
        decreases bootnodes@.len() - i,
    {
        let usable = match multiaddr_from_text(bootnodes[i].as_str()) {
            Some(address) => match peer_id_from_multiaddr(address) {
                Ok(_) => true,
                Err(_) => false,
            },
            None => false,
        };
        if !usable {
            assert(!usable_bootstrap(bootnodes@[i as int]@));
            return None;
        }
        i += 1;
    }
    Some(bootstrap_entries(bootnodes, local_peer))
}

} // verus!

verus! {

/// The entries for a list of usable bootstrap addresses are exactly the
/// (peer, address) pairs of the addresses that name another peer than the
/// node itself: no entry is for the node itself, every entry comes from one
/// of the addresses, and every address of another peer has its entry.
pub proof fn law_bootstrap_entries(bootnodes: Seq<Seq<char>>, local_peer: PeerId)
    requires
        forall|i: int| 0 <= i < bootnodes.len() ==> usable_bootstrap(#[trigger] bootnodes[i]),
    ensures
        forall|j: int| 0 <= j < bootstrap_spec(bootnodes, local_peer).len() ==> {
            let (peer, address) = #[trigger] bootstrap_spec(bootnodes, local_peer)[j];
            &&& peer != local_peer
            &&& exists|i: int| 0 <= i < bootnodes.len() && multiaddr_parse(bootnodes[i]) == Some(address)
                && multiaddr_peer(address) == Some(peer)
        },
        forall|i: int| 0 <= i < bootnodes.len()
            && multiaddr_peer(multiaddr_parse(#[trigger] bootnodes[i])->Some_0) != Some(local_peer) ==>
            bootstrap_spec(bootnodes, local_peer).contains((
                multiaddr_peer(multiaddr_parse(bootnodes[i])->Some_0)->Some_0,
                multiaddr_parse(bootnodes[i])->Some_0,
            )),
    decreases bootnodes.len(),
{
    if bootnodes.len() > 0 {
        let before = bootnodes.drop_last();
        law_bootstrap_entries(before, local_peer);
        let spec = bootstrap_spec(bootnodes, local_peer);
        let prev = bootstrap_spec(before, local_peer);
        let n = bootnodes.len() - 1;
        assert forall|j: int| 0 <= j < spec.len() implies {
            let (peer, address) = #[trigger] spec[j];
            &&& peer != local_peer
            &&& exists|i: int| 0 <= i < bootnodes.len() && multiaddr_parse(bootnodes[i]) == Some(address)
                && multiaddr_peer(address) == Some(peer)
        } by {
            if j < prev.len() {
                assert(spec[j] == prev[j]);
                let (peer, address) = prev[j];
                let i = choose|i: int| 0 <= i < before.len() && multiaddr_parse(before[i]) == Some(address)
                    && multiaddr_peer(address) == Some(peer);
                assert(bootnodes[i] == before[i]);
            } else {
                assert(usable_bootstrap(bootnodes[n]));
                assert(bootnodes[n] == bootnodes.last());
            }
        }
        assert forall|i: int| 0 <= i < bootnodes.len()
            && multiaddr_peer(multiaddr_parse(#[trigger] bootnodes[i])->Some_0) != Some(local_peer) implies
            spec.contains((
                multiaddr_peer(multiaddr_parse(bootnodes[i])->Some_0)->Some_0,
                multiaddr_parse(bootnodes[i])->Some_0,
            )) by {
            assert(usable_bootstrap(bootnodes[i]));
            if i < n {
                assert(before[i] == bootnodes[i]);
                let e = (
                    multiaddr_peer(multiaddr_parse(bootnodes[i])->Some_0)->Some_0,
                    multiaddr_parse(bootnodes[i])->Some_0,
                );
                assert(prev.contains(e));
                let j = choose|j: int| 0 <= j < prev.len() && prev[j] == e;
                assert(spec[j] == e);
            } else {
                assert(bootnodes[i] == bootnodes.last());
                assert(spec[spec.len() - 1] == (
                    multiaddr_peer(multiaddr_parse(bootnodes[i])->Some_0)->Some_0,
                    multiaddr_parse(bootnodes[i])->Some_0,
                ));
            }
        }
    }
}

} // verus!
