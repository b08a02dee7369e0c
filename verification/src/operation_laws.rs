//! What each operation of a node does, branch by branch, stated over the
//! node's database and jobs.

use vstd::prelude::*;
use libp2p::{Multiaddr, PeerId};
use crate::communication_types::{
    DirectoryRequestView, DirectoryResponseView, GetValueResponseView, InnerRequestValueView, InnerResponseValue,
};
use crate::db::ValueView;
use crate::errors::DirectorySpecificErrorsView;
use crate::jobs::{RequestJobStateView, RequestJobView, WithRequestInfo};
use crate::node::{
    NodeActionView, NodeView, add_new_value_step, get_value_defined, get_value_step, gossip_step, kad_step,
    redirect_step, request_defined, request_step, KadEvent,
};
use crate::peers::{multiaddr_peer, multiaddr_with_p2p, peer_id_parse, peer_id_text};

verus! {

/// `b` equals `a` apart from the entry for `key`.
pub open spec fn same_elsewhere<V>(a: Map<Seq<u8>, V>, b: Map<Seq<u8>, V>, key: Seq<u8>) -> bool {
    a.remove(key) == b.remove(key)
}

// ---- reads ----

/// A read is defined everywhere except: a finished job without the object at
/// hand, and (with no job) a pointer that is no peer id or an own address
/// that cannot carry the node's peer id.
pub proof fn law_read_defined_exactly(m: NodeView, key: Seq<u8>)
    ensures
        get_value_defined(m, key) <==> {
            &&& (m.jobs.contains_key(key) && m.jobs[key].state is Finished) ==> (m.db.contains_key(key) && m.db[key] is Direct)
            &&& (!m.jobs.contains_key(key) && m.db.contains_key(key) && m.db[key] is Pointer) ==> {
                &&& peer_id_parse(m.db[key]->Pointer_0) is Some
                &&& multiaddr_with_p2p(m.address, m.local_peer) is Ok
            }
        },
{
}

/// A read of a key the node neither knows nor waits for fails with
/// `KeyDoesNotExist` for that key and changes nothing.
pub proof fn law_read_of_unknown_key(m: NodeView, key: Seq<u8>)
    requires
        !m.jobs.contains_key(key),
        !m.db.contains_key(key),
    ensures
        get_value_step(m, key).0 == m,
        get_value_step(m, key).1 == Err::<GetValueResponseView, DirectorySpecificErrorsView>(
            DirectorySpecificErrorsView::KeyDoesNotExist { key },
        ),
        get_value_step(m, key).2.len() == 0,
{
}

/// A read of an object the node holds, with no job for it, returns the
/// object and changes nothing.
pub proof fn law_read_of_owned_object(m: NodeView, key: Seq<u8>, v: Seq<u8>)
    requires
        !m.jobs.contains_key(key),
        m.db.contains_key(key),
        m.db[key] == ValueView::Direct(v),
    ensures
        get_value_step(m, key).0 == m,
        get_value_step(m, key).1 == Ok::<GetValueResponseView, DirectorySpecificErrorsView>(GetValueResponseView::Owner(v)),
        get_value_step(m, key).2.len() == 0,
{
}

/// A read along a pointer, with no job for the key, opens a waiting job with
/// no request recorded, leaves the database alone, reports `Waiting`, and
/// sends one object request to the pointed peer on behalf of the node's own
/// address with its peer id.
pub proof fn law_read_follows_pointer(m: NodeView, key: Seq<u8>, p: Seq<char>)
    requires
        !m.jobs.contains_key(key),
        m.db.contains_key(key),
        m.db[key] == ValueView::Pointer(p),
        peer_id_parse(p) is Some,
        multiaddr_with_p2p(m.address, m.local_peer) is Ok,
    ensures
        get_value_step(m, key).0.db == m.db,
        get_value_step(m, key).0.jobs.contains_key(key),
        get_value_step(m, key).0.jobs[key] == (RequestJobView { state: RequestJobStateView::Waiting, with_request_info: None }),
        same_elsewhere(get_value_step(m, key).0.jobs, m.jobs, key),
        get_value_step(m, key).0.local_peer == m.local_peer,
        get_value_step(m, key).0.address == m.address,
        get_value_step(m, key).1 == Ok::<GetValueResponseView, DirectorySpecificErrorsView>(
            GetValueResponseView::Requested(RequestJobStateView::Waiting),
        ),
        get_value_step(m, key).2 == seq![NodeActionView::SendRequest {
            peer: peer_id_parse(p)->Some_0,
            request: DirectoryRequestView {
                key,
                request_type: InnerRequestValueView::ObjectRequest { source: multiaddr_with_p2p(m.address, m.local_peer)->Ok_0 },
            },
        }],
{
    assert(get_value_step(m, key).0.jobs.remove(key) =~= m.jobs.remove(key));
}

/// A read while the job for the key is waiting or searching changes
/// nothing, whatever request the job has recorded, sends nothing, and
/// reports the job's state.
pub proof fn law_read_while_waiting(m: NodeView, key: Seq<u8>)
    requires
        m.jobs.contains_key(key),
        m.jobs[key].state is Waiting || m.jobs[key].state is SearchingDirection,
    ensures
        get_value_step(m, key).0 == m,
        get_value_step(m, key).1 == Ok::<GetValueResponseView, DirectorySpecificErrorsView>(
            GetValueResponseView::Requested(m.jobs[key].state),
        ),
        get_value_step(m, key).2.len() == 0,
{
}

/// A read of a key whose job failed reports the job's error and changes nothing.
pub proof fn law_read_of_failed_job(m: NodeView, key: Seq<u8>, e: DirectorySpecificErrorsView)
    requires
        m.jobs.contains_key(key),
        m.jobs[key].state == RequestJobStateView::Failed(e),
    ensures
        get_value_step(m, key).0 == m,
        get_value_step(m, key).1 == Err::<GetValueResponseView, DirectorySpecificErrorsView>(e),
        get_value_step(m, key).2.len() == 0,
{
}

/// A read of a key whose job finished with no request recorded returns the
/// object, closes the job, keeps the object, and sends nothing.
pub proof fn law_read_of_finished_job(m: NodeView, key: Seq<u8>, v: Seq<u8>)
    requires
        m.jobs.contains_key(key),
        m.jobs[key].state is Finished,
        m.jobs[key].with_request_info is None,
        m.db.contains_key(key),
        m.db[key] == ValueView::Direct(v),
    ensures
        get_value_step(m, key).0.db == m.db,
        get_value_step(m, key).0.jobs == m.jobs.remove(key),
        get_value_step(m, key).1 == Ok::<GetValueResponseView, DirectorySpecificErrorsView>(GetValueResponseView::Owner(v)),
        get_value_step(m, key).2.len() == 0,
{
}

/// A read of a key whose job finished with a request recorded returns the
/// object, sends it on to the recorded requester, points the key to the peer
/// the request came through, closes the job, and touches nothing else.
pub proof fn law_read_of_finished_job_hands_on(m: NodeView, key: Seq<u8>, v: Seq<u8>, info: WithRequestInfo)
    requires
        m.jobs.contains_key(key),
        m.jobs[key].state is Finished,
        m.jobs[key].with_request_info == Some(info),
        m.db.contains_key(key),
        m.db[key] == ValueView::Direct(v),
    ensures
        get_value_step(m, key).0.db.contains_key(key),
        get_value_step(m, key).0.db[key] == ValueView::Pointer(peer_id_text(info.last_peer)),
        same_elsewhere(get_value_step(m, key).0.db, m.db, key),
        get_value_step(m, key).0.jobs == m.jobs.remove(key),
        get_value_step(m, key).1 == Ok::<GetValueResponseView, DirectorySpecificErrorsView>(GetValueResponseView::Owner(v)),
        get_value_step(m, key).2 == seq![NodeActionView::SendObject { key, value: v, requester: info.requester }],
{
    assert(get_value_step(m, key).0.db.remove(key) =~= m.db.remove(key));
}

// ---- writes and gossip ----

/// An add is refused exactly for a key the node knows. A new key is
/// accepted: it maps to the object, the rest of the database and the jobs are
/// unchanged, and the key is announced.
pub proof fn law_add_accepts_exactly_new_keys(m: NodeView, key: Seq<u8>, value: Seq<u8>)
    ensures
        add_new_value_step(m, key, value).1 is Err <==> m.db.contains_key(key),
        add_new_value_step(m, key, value).1 is Err ==> add_new_value_step(m, key, value).0 == m
            && add_new_value_step(m, key, value).1 == Err::<(), Seq<u8>>(key)
            && add_new_value_step(m, key, value).2.len() == 0,
        !m.db.contains_key(key) ==> {
            let (m2, _, actions) = add_new_value_step(m, key, value);
            &&& m2.db.contains_key(key)
            &&& m2.db[key] == ValueView::Direct(value)
            &&& same_elsewhere(m2.db, m.db, key)
            &&& m2.jobs == m.jobs
            &&& actions == seq![NodeActionView::PublishKey { key }]
        },
{
    assert(add_new_value_step(m, key, value).0.db.remove(key) =~= m.db.remove(key));
}

/// A gossip announcement leaves a node that knows the key unchanged; a node
/// that does not know it now points to the announcer, and nothing else changes.
pub proof fn law_gossip(m: NodeView, source: PeerId, key: Seq<u8>)
    ensures
        m.db.contains_key(key) ==> gossip_step(m, source, key) == m,
        !m.db.contains_key(key) ==> {
            let m2 = gossip_step(m, source, key);
            &&& m2.db.contains_key(key)
            &&& m2.db[key] == ValueView::Pointer(peer_id_text(source))
            &&& same_elsewhere(m2.db, m.db, key)
            &&& m2.jobs == m.jobs
        },
{
    assert(gossip_step(m, source, key).db.remove(key) =~= m.db.remove(key));
}

/// After `redirect_pointer(key, peer)` the key points to `peer`, whatever it
/// held before, a pointer included; nothing else changes.
pub proof fn law_redirect_points_to_peer(m: NodeView, key: Seq<u8>, peer: PeerId)
    ensures
        redirect_step(m, key, peer).db.contains_key(key),
        redirect_step(m, key, peer).db[key] == ValueView::Pointer(peer_id_text(peer)),
        same_elsewhere(redirect_step(m, key, peer).db, m.db, key),
        redirect_step(m, key, peer).jobs == m.jobs,
{
    assert(redirect_step(m, key, peer).db.remove(key) =~= m.db.remove(key));
}

// ---- requests from other nodes ----

/// The request for the object of `key` on behalf of `source`.
pub open spec fn object_request_for(key: Seq<u8>, source: Multiaddr) -> DirectoryRequestView {
    DirectoryRequestView { key, request_type: InnerRequestValueView::ObjectRequest { source } }
}

/// The acknowledgement of a request about `key`.
pub open spec fn ack_for(key: Seq<u8>) -> Result<DirectoryResponseView, DirectorySpecificErrorsView> {
    Ok(DirectoryResponseView { key, response_type: InnerResponseValue::ReceivedIncomingRequest })
}

/// An object request is defined exactly when the node knows the key, the
/// requester's address carries a peer id, and (with no job) a pointer to
/// follow is a peer id. In particular an idle node with a valid pointer
/// serves it.
pub proof fn law_object_request_defined_exactly(m: NodeView, key: Seq<u8>, source: Multiaddr)
    ensures
        request_defined(m, object_request_for(key, source)) <==> {
            &&& m.db.contains_key(key)
            &&& multiaddr_peer(source) is Some
            &&& (!m.jobs.contains_key(key) && m.db[key] is Pointer) ==> peer_id_parse(m.db[key]->Pointer_0) is Some
        },
{
}

/// An arriving object is defined exactly for a key the node has a job for;
/// a key search always is.
pub proof fn law_other_requests_defined_exactly(m: NodeView, key: Seq<u8>, value: Seq<u8>)
    ensures
        request_defined(m, DirectoryRequestView { key, request_type: InnerRequestValueView::ObjectOwnershipSend { value } })
            <==> m.jobs.contains_key(key),
        request_defined(m, DirectoryRequestView { key, request_type: InnerRequestValueView::KeySearch }),
{
}

/// An idle owner asked for its object sends it to the requester, changes
/// nothing yet, acknowledges, and will point to the peer the request came through.
pub proof fn law_idle_owner_sends_object(m: NodeView, key: Seq<u8>, source: Multiaddr, peer: PeerId, v: Seq<u8>)
    requires
        !m.jobs.contains_key(key),
        m.db.contains_key(key),
        m.db[key] == ValueView::Direct(v),
    ensures
        request_step(m, object_request_for(key, source), peer).0 == m,
        request_step(m, object_request_for(key, source), peer).1 == seq![NodeActionView::SendObject { key, value: v, requester: source }],
        request_step(m, object_request_for(key, source), peer).2 == ack_for(key),
        request_step(m, object_request_for(key, source), peer).3 == Some(peer),
{
}

/// An idle node with a pointer passes an object request on to the pointed
/// peer, for the same requester, changes nothing yet, acknowledges, and will
/// point to the peer the request came through.
pub proof fn law_idle_pointer_forwards(m: NodeView, key: Seq<u8>, source: Multiaddr, peer: PeerId, p: Seq<char>)
    requires
        !m.jobs.contains_key(key),
        m.db.contains_key(key),
        m.db[key] == ValueView::Pointer(p),
        peer_id_parse(p) is Some,
        multiaddr_peer(source) is Some,
    ensures
        request_defined(m, object_request_for(key, source)),
        request_step(m, object_request_for(key, source), peer).0 == m,
        request_step(m, object_request_for(key, source), peer).1 == seq![NodeActionView::SendRequest {
            peer: peer_id_parse(p)->Some_0,
            request: object_request_for(key, source),
        }],
        request_step(m, object_request_for(key, source), peer).2 == ack_for(key),
        request_step(m, object_request_for(key, source), peer).3 == Some(peer),
{
}

/// A waiting node with no request recorded records this one (requester and
/// the peer it came through), keeps the job's state, sends nothing, and
/// keeps its database.
pub proof fn law_waiting_node_records_request(m: NodeView, key: Seq<u8>, source: Multiaddr, peer: PeerId)
    requires
        m.jobs.contains_key(key),
        m.jobs[key].with_request_info is None,
    ensures
        request_step(m, object_request_for(key, source), peer).0.db == m.db,
        request_step(m, object_request_for(key, source), peer).0.jobs == m.jobs.insert(key, RequestJobView {
            state: m.jobs[key].state,
            with_request_info: Some(WithRequestInfo { requester: source, last_peer: peer }),
        }),
        request_step(m, object_request_for(key, source), peer).1.len() == 0,
        request_step(m, object_request_for(key, source), peer).2 == ack_for(key),
        request_step(m, object_request_for(key, source), peer).3 is None,
{
}

/// A waiting node that already recorded a request keeps the first
/// requester, now remembers the newer hop, and passes the new request on to
/// the peer the first one came through.
pub proof fn law_waiting_node_passes_second_request(
    m: NodeView,
    key: Seq<u8>,
    source: Multiaddr,
    peer: PeerId,
    first: WithRequestInfo,
)
    requires
        m.jobs.contains_key(key),
        m.jobs[key].with_request_info == Some(first),
    ensures
        request_step(m, object_request_for(key, source), peer).0.db == m.db,
        request_step(m, object_request_for(key, source), peer).0.jobs == m.jobs.insert(key, RequestJobView {
            state: m.jobs[key].state,
            with_request_info: Some(WithRequestInfo { requester: first.requester, last_peer: peer }),
        }),
        request_step(m, object_request_for(key, source), peer).1 == seq![NodeActionView::SendRequest {
            peer: first.last_peer,
            request: object_request_for(key, source),
        }],
        request_step(m, object_request_for(key, source), peer).2 == ack_for(key),
        request_step(m, object_request_for(key, source), peer).3 is None,
{
}

/// An arriving object for a known key replaces what the node had for the
/// key and finishes the job, keeping its recorded request; for an unknown key
/// the node only finishes the job and answers `UnexpectedRequest`.
pub proof fn law_arrival(m: NodeView, key: Seq<u8>, value: Seq<u8>, peer: PeerId)
    requires
        m.jobs.contains_key(key),
    ensures
        ({
            let (m2, actions, response, redirect) = request_step(
                m,
                DirectoryRequestView { key, request_type: InnerRequestValueView::ObjectOwnershipSend { value } },
                peer,
            );
            &&& m2.jobs == m.jobs.insert(key, RequestJobView {
                state: RequestJobStateView::Finished,
                with_request_info: m.jobs[key].with_request_info,
            })
            &&& actions.len() == 0
            &&& redirect is None
            &&& m.db.contains_key(key) ==> m2.db == m.db.insert(key, ValueView::Direct(value)) && response == ack_for(key)
            &&& !m.db.contains_key(key) ==> m2.db == m.db
                && response == Err::<DirectoryResponseView, DirectorySpecificErrorsView>(
                    DirectorySpecificErrorsView::UnexpectedRequest { key },
                )
        }),
{
}

/// A key search changes nothing and answers whether the node knows the key.
pub proof fn law_key_search(m: NodeView, key: Seq<u8>, peer: PeerId)
    ensures
        ({
            let (m2, actions, response, redirect) = request_step(
                m,
                DirectoryRequestView { key, request_type: InnerRequestValueView::KeySearch },
                peer,
            );
            &&& m2 == m
            &&& actions.len() == 0
            &&& redirect is None
            &&& response == Ok::<DirectoryResponseView, DirectorySpecificErrorsView>(DirectoryResponseView {
                key,
                response_type: InnerResponseValue::IsKeyFound(m.db.contains_key(key)),
            })
        }),
{
}

// ---- Kademlia ----

/// A closest-peers query fails exactly when it found no peer; a routing
/// update adds the peer to gossip; a routable peer is added and dialled; a
/// pending one is dialled; anything else needs nothing.
pub proof fn law_kad(peers: Vec<PeerId>, peer: PeerId, address: Multiaddr)
    ensures
        kad_step(KadEvent::ClosestPeersFound { peers }) is Err <==> peers@.len() == 0,
        peers@.len() > 0 ==> kad_step(KadEvent::ClosestPeersFound { peers }) == Ok::<Seq<NodeActionView>, Seq<char>>(Seq::empty()),
        kad_step(KadEvent::RoutingUpdated { peer }) == Ok::<Seq<NodeActionView>, Seq<char>>(
            seq![NodeActionView::AddExplicitPeer { peer }],
        ),
        kad_step(KadEvent::RoutablePeer { peer, address }) == Ok::<Seq<NodeActionView>, Seq<char>>(
            seq![NodeActionView::AddExplicitPeer { peer }, NodeActionView::Dial { address }],
        ),
        kad_step(KadEvent::PendingRoutablePeer { peer, address }) == Ok::<Seq<NodeActionView>, Seq<char>>(
            seq![NodeActionView::Dial { address }],
        ),
        kad_step(KadEvent::QueryProgressed) == Ok::<Seq<NodeActionView>, Seq<char>>(Seq::empty()),
        kad_step(KadEvent::Other) == Ok::<Seq<NodeActionView>, Seq<char>>(Seq::empty()),
{
}

} // verus!
