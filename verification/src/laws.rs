//! What the directory protocol keeps and promises across operations.

use vstd::prelude::*;
use libp2p::{Multiaddr, PeerId};
use crate::communication_types::{DirectoryRequestView, GetValueResponseView, InnerRequestValueView};
use crate::db::ValueView;
use crate::errors::DirectorySpecificErrorsView;
use crate::jobs::{RequestJobStateView, WithRequestInfo};
use crate::node::{
    jobs_have_entries, NodeActionView, NodeView, add_new_value_step, get_value_defined, get_value_step, gossip_step,
    object_request, object_request_step, ownership_send_step, redirect_step, request_defined,
    request_step,
};
use crate::peers::{multiaddr_with_p2p, peer_id_parse, peer_id_text, valid_peer};

verus! {

/// The core of a node's invariant: every job is for a key the node knows,
/// and a finished job has the object at hand.
pub open spec fn core_invariant(m: NodeView) -> bool {
    &&& jobs_have_entries(m)
    &&& forall|k: Seq<u8>| #[trigger] m.jobs.contains_key(k) && m.jobs[k].state is Finished ==> m.db[k] is Direct
}

/// The arrival of an object keeps the core invariant, so that a later read
/// of a finished job always finds the object.
pub proof fn law_arrival_keeps_core_invariant(m: NodeView, key: Seq<u8>, value: Seq<u8>)
    requires
        core_invariant(m),
        m.jobs.contains_key(key),
    ensures
        core_invariant(ownership_send_step(m, key, value).0),
{
}

/// The invariant of a node: its core; every pointer is a peer id; every
/// recorded requester came through a valid peer.
pub open spec fn node_invariant(m: NodeView) -> bool {
    &&& core_invariant(m)
    &&& forall|k: Seq<u8>| #[trigger] m.db.contains_key(k) && m.db[k] is Pointer ==> peer_id_parse(m.db[k]->Pointer_0) is Some
    &&& forall|k: Seq<u8>| #[trigger] m.jobs.contains_key(k) && m.jobs[k].with_request_info is Some
        ==> valid_peer(m.jobs[k].with_request_info->Some_0.last_peer)
}

/// A node with no keys and no jobs keeps the invariant.
pub proof fn law_fresh_node_invariant(local_peer: PeerId, address: Multiaddr)
    ensures
        node_invariant(NodeView { db: Map::empty(), jobs: Map::empty(), local_peer, address }),
{
}

/// Adding a new key keeps the invariant.
pub proof fn law_add_keeps_invariant(m: NodeView, key: Seq<u8>, value: Seq<u8>)
    requires
        node_invariant(m),
    ensures
        node_invariant(add_new_value_step(m, key, value).0),
{
}

/// A read keeps the invariant.
pub proof fn law_get_keeps_invariant(m: NodeView, key: Seq<u8>)
    requires
        node_invariant(m),
        get_value_defined(m, key),
    ensures
        node_invariant(get_value_step(m, key).0),
{
    let m2 = get_value_step(m, key).0;
    if m.jobs.contains_key(key) && m.jobs[key].state is Finished && m.jobs[key].with_request_info is Some {
        assert(valid_peer(m.jobs[key].with_request_info->Some_0.last_peer));
        assert forall|k: Seq<u8>| #[trigger] m2.db.contains_key(k) && m2.db[k] is Pointer implies peer_id_parse(m2.db[k]->Pointer_0) is Some by {
            if k != key {
                assert(m.db.contains_key(k));
            }
        }
    }
}

/// A request from a valid peer keeps the invariant, and so does pointing
/// to that peer afterwards when the outcome asks for it.
pub proof fn law_request_keeps_invariant(m: NodeView, request: DirectoryRequestView, peer: PeerId)
    requires
        node_invariant(m),
        request_defined(m, request),
        valid_peer(peer),
    ensures
        node_invariant(request_step(m, request, peer).0),
        request_step(m, request, peer).3 is Some ==> node_invariant(
            redirect_step(request_step(m, request, peer).0, request.key, request_step(m, request, peer).3->Some_0),
        ),
{
    let key = request.key;
    let (m2, _, _, redirect) = request_step(m, request, peer);
    match request.request_type {
        InnerRequestValueView::ObjectRequest { source } => {
            if redirect is Some {
                let m3 = redirect_step(m2, key, peer);
                assert(!m.jobs.contains_key(key));
                assert(m2 == m);
                assert forall|k: Seq<u8>| #[trigger] m3.db.contains_key(k) && m3.db[k] is Pointer implies peer_id_parse(m3.db[k]->Pointer_0) is Some by {
                    if k != key {
                        assert(m.db.contains_key(k));
                    }
                }
            }
        },
        _ => {},
    }
}

/// A gossip announcement from a valid peer keeps the invariant.
pub proof fn law_gossip_keeps_invariant(m: NodeView, source: PeerId, key: Seq<u8>)
    requires
        node_invariant(m),
        valid_peer(source),
    ensures
        node_invariant(gossip_step(m, source, key)),
{
    let m2 = gossip_step(m, source, key);
    assert forall|k: Seq<u8>| #[trigger] m2.db.contains_key(k) && m2.db[k] is Pointer implies peer_id_parse(m2.db[k]->Pointer_0) is Some by {
        if k != key {
            assert(m.db.contains_key(k));
        }
    }
}

/// Under the invariant every read is defined, given that the node's own
/// address can carry its peer id.
pub proof fn law_invariant_makes_reads_defined(m: NodeView, key: Seq<u8>)
    requires
        node_invariant(m),
        multiaddr_with_p2p(m.address, m.local_peer) is Ok,
    ensures
        get_value_defined(m, key),
{
    if m.jobs.contains_key(key) {
        assert(m.db.contains_key(key));
    } else if m.db.contains_key(key) && m.db[key] is Pointer {
        assert(peer_id_parse(m.db[key]->Pointer_0) is Some);
    }
}

/// A read gives back what a write added: when a well-formed node (every
/// node is) accepts a new key, the key is announced, and a read of it then
/// returns the object and changes nothing.
pub proof fn law_read_after_add(m: NodeView, key: Seq<u8>, value: Seq<u8>)
    requires
        jobs_have_entries(m),
        add_new_value_step(m, key, value).1 is Ok,
    ensures
        add_new_value_step(m, key, value).1 == Ok::<(), Seq<u8>>(()),
        add_new_value_step(m, key, value).2 == seq![NodeActionView::PublishKey { key }],
        get_value_step(add_new_value_step(m, key, value).0, key).0 == add_new_value_step(m, key, value).0,
        get_value_step(add_new_value_step(m, key, value).0, key).1
            == Ok::<GetValueResponseView, DirectorySpecificErrorsView>(GetValueResponseView::Owner(value)),
        get_value_step(add_new_value_step(m, key, value).0, key).2 == Seq::<NodeActionView>::empty(),
{
}

/// A key that a node knows cannot be added again: the node refuses it and
/// stays as it was.
pub proof fn law_add_known_key_refused(m: NodeView, key: Seq<u8>, value: Seq<u8>)
    requires
        m.db.contains_key(key),
    ensures
        add_new_value_step(m, key, value) == (m, Err::<(), Seq<u8>>(key), Seq::<NodeActionView>::empty()),
{
}

/// A read of a key the node does not know fails with `KeyDoesNotExist` and
/// changes nothing.
pub proof fn law_read_unknown_key(m: NodeView, key: Seq<u8>)
    requires
        jobs_have_entries(m),
        !m.db.contains_key(key),
    ensures
        get_value_step(m, key) == (
            m,
            Err::<GetValueResponseView, DirectorySpecificErrorsView>(DirectorySpecificErrorsView::KeyDoesNotExist { key }),
            Seq::<NodeActionView>::empty(),
        ),
{
}

/// A node that points elsewhere asks the peer it points to once: the first
/// read sends one request along the pointer and waits; a second read only
/// reports that it waits, sending nothing more.
pub proof fn law_one_request_in_flight(m: NodeView, key: Seq<u8>)
    requires
        !m.jobs.contains_key(key),
        m.db.contains_key(key),
        m.db[key] is Pointer,
        get_value_defined(m, key),
    ensures
        get_value_step(m, key).2 == seq![NodeActionView::SendRequest {
            peer: peer_id_parse(m.db[key]->Pointer_0)->Some_0,
            request: object_request(key, multiaddr_with_p2p(m.address, m.local_peer)->Ok_0),
        }],
        get_value_step(get_value_step(m, key).0, key) == (
            get_value_step(m, key).0,
            Ok::<GetValueResponseView, DirectorySpecificErrorsView>(GetValueResponseView::Requested(RequestJobStateView::Waiting)),
            Seq::<NodeActionView>::empty(),
        ),
{
}

/// When the object arrives at a node that asked for it, the next read
/// returns that object and closes the job.
pub proof fn law_read_after_arrival(m: NodeView, key: Seq<u8>, value: Seq<u8>)
    requires
        m.jobs.contains_key(key),
        m.db.contains_key(key),
    ensures
        get_value_defined(ownership_send_step(m, key, value).0, key),
        get_value_step(ownership_send_step(m, key, value).0, key).1
            == Ok::<GetValueResponseView, DirectorySpecificErrorsView>(GetValueResponseView::Owner(value)),
        !get_value_step(ownership_send_step(m, key, value).0, key).0.jobs.contains_key(key),
{
}

/// An idle owner that is asked for its object sends it to the requester and
/// then points to the peer the request came through, so that a later read
/// of its own follows the object's path.
pub proof fn law_owner_hands_over(m: NodeView, key: Seq<u8>, requester: Multiaddr, peer: PeerId)
    requires
        !m.jobs.contains_key(key),
        m.db.contains_key(key),
        m.db[key] is Direct,
        valid_peer(peer),
        multiaddr_with_p2p(m.address, m.local_peer) is Ok,
    ensures
        object_request_step(m, key, requester, peer) == (
            m,
            seq![NodeActionView::SendObject { key, value: m.db[key]->Direct_0, requester }],
            Some(peer),
        ),
        redirect_step(m, key, peer).db[key] == ValueView::Pointer(peer_id_text(peer)),
        get_value_step(redirect_step(m, key, peer), key).2 == seq![NodeActionView::SendRequest {
            peer,
            request: object_request(key, multiaddr_with_p2p(m.address, m.local_peer)->Ok_0),
        }],
{
}

/// A request that reaches a node still waiting for the object is queued
/// behind it: nothing is forwarded, and once the object has arrived and been
/// read, the object goes on to that requester and the node points to the
/// peer the request came through.
pub proof fn law_waiting_node_serves_queued_request(
    m: NodeView,
    key: Seq<u8>,
    requester: Multiaddr,
    peer: PeerId,
    value: Seq<u8>,
)
    requires
        m.jobs.contains_key(key),
        m.jobs[key].state is Waiting,
        m.jobs[key].with_request_info is None,
        m.db.contains_key(key),
    ensures
        object_request_step(m, key, requester, peer).1 == Seq::<NodeActionView>::empty(),
        ({
            let m1 = object_request_step(m, key, requester, peer).0;
            let m2 = ownership_send_step(m1, key, value).0;
            &&& get_value_step(m2, key).1 == Ok::<GetValueResponseView, DirectorySpecificErrorsView>(GetValueResponseView::Owner(value))
            &&& get_value_step(m2, key).2 == seq![NodeActionView::SendObject { key, value, requester }]
            &&& get_value_step(m2, key).0.db[key] == ValueView::Pointer(peer_id_text(peer))
            &&& !get_value_step(m2, key).0.jobs.contains_key(key)
        }),
{
    let m1 = object_request_step(m, key, requester, peer).0;
    assert(m1.jobs[key].with_request_info == Some(WithRequestInfo { requester, last_peer: peer }));
}

} // verus!
