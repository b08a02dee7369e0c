//! The directory protocol run by one node: its database of objects and
//! pointers, its jobs, and what it does on each request and event.

use vstd::prelude::*;
use vstd::string::StringExecFns;
use libp2p::{Multiaddr, PeerId};
use crate::communication_types::{
    DirectoryRequest, DirectoryRequestView, DirectoryResponse, DirectoryResponseResult,
    DirectoryResponseView, GetValueResponse, GetValueResponseView, InnerRequestValue,
    InnerRequestValueView, InnerResponseValue, response_result_view,
};
use crate::db::{Database, DatabaseType, Value, ValueView};
use crate::errors::{
    copy_bytes, DirectorySpecificErrors, DirectorySpecificErrorsView, KeyAlreadyExists,
    KeyDoesNotExist, UnexpectedRequest,
};
use crate::jobs::{RequestJob, RequestJobManager, RequestJobState, RequestJobStateView, RequestJobView, WithRequestInfo};
use crate::peers::{
    address_with_p2p, multiaddr_peer, multiaddr_with_p2p, peer_id_from_multiaddr, peer_id_from_text,
    peer_id_parse, peer_id_text, peer_id_to_text,
};

verus! {

/// Work that a node hands to its network layer.
pub enum NodeAction {
    /// Send `request` to `peer`.
    SendRequest { peer: PeerId, request: DirectoryRequest },
    /// Connect to `requester` and hand it the object of `key`.
    SendObject { key: Vec<u8>, value: Vec<u8>, requester: Multiaddr },
    /// Announce a new key on the gossip topic.
    PublishKey { key: Vec<u8> },
    /// Add `peer` to the explicit peers of the gossip layer.
    AddExplicitPeer { peer: PeerId },
    /// Dial `address`.
    Dial { address: Multiaddr },
}

/// The mathematical form of a `NodeAction`.
pub enum NodeActionView {
    SendRequest { peer: PeerId, request: DirectoryRequestView },
    SendObject { key: Seq<u8>, value: Seq<u8>, requester: Multiaddr },
    PublishKey { key: Seq<u8> },
    AddExplicitPeer { peer: PeerId },
    Dial { address: Multiaddr },
}

impl View for NodeAction {
    type V = NodeActionView;

    open spec fn view(&self) -> NodeActionView {
        match self {
            NodeAction::SendRequest { peer, request } => NodeActionView::SendRequest { peer: *peer, request: request@ },
            NodeAction::SendObject { key, value, requester } => NodeActionView::SendObject {
                key: key@,
                value: value@,
                requester: *requester,
            },
            NodeAction::PublishKey { key } => NodeActionView::PublishKey { key: key@ },
            NodeAction::AddExplicitPeer { peer } => NodeActionView::AddExplicitPeer { peer: *peer },
            NodeAction::Dial { address } => NodeActionView::Dial { address: *address },
        }
    }
}

/// The views of a list of actions.
pub open spec fn actions_view(a: Seq<NodeAction>) -> Seq<NodeActionView> {
    a.map_values(|x: NodeAction| x@)
}

/// What a node knows: its database, its jobs, its own peer id and address.
#[verifier::ext_equal]
pub struct NodeView {
    pub db: Map<Seq<u8>, ValueView>,
    pub jobs: Map<Seq<u8>, RequestJobView>,
    pub local_peer: PeerId,
    pub address: Multiaddr,
}

/// The job a node opens when it asks for an object.
pub open spec fn waiting_job() -> RequestJobView {
    RequestJobView { state: RequestJobStateView::Waiting, with_request_info: None }
}

/// A request for the object of `key` on behalf of the node at `source`.
pub open spec fn object_request(key: Seq<u8>, source: Multiaddr) -> DirectoryRequestView {
    DirectoryRequestView { key, request_type: InnerRequestValueView::ObjectRequest { source } }
}

/// The acknowledgement of a request about `key`.
pub open spec fn acknowledgement(key: Seq<u8>) -> DirectoryResponseView {
    DirectoryResponseView { key, response_type: InnerResponseValue::ReceivedIncomingRequest }
}

/// The answer a node gives to an API read of `key`, as a view.
pub open spec fn get_result_view(r: Result<GetValueResponse, DirectorySpecificErrors>) -> Result<GetValueResponseView, DirectorySpecificErrorsView> {
    match r {
        Ok(a) => Ok(a@),
        Err(e) => Err(e@),
    }
}

/// The answer a node gives to an API write, as a view: the key refused, if any.
pub open spec fn add_result_view(r: Result<(), KeyAlreadyExists>) -> Result<(), Seq<u8>> {
    match r {
        Ok(()) => Ok(()),
        Err(e) => Err(e.key@),
    }
}

/// The inputs on which `get_value` is defined (elsewhere it would panic):
/// a finished job has the object at hand, and a pointer to follow parses to a
/// peer id while the node's own address can carry its peer id.
pub open spec fn get_value_defined(m: NodeView, key: Seq<u8>) -> bool {
    if m.jobs.contains_key(key) {
        m.jobs[key].state is Finished ==> m.db.contains_key(key) && m.db[key] is Direct
    } else {
        m.db.contains_key(key) && m.db[key] is Pointer ==> {
            &&& peer_id_parse(m.db[key]->Pointer_0) is Some
            &&& multiaddr_with_p2p(m.address, m.local_peer) is Ok
        }
    }
}

/// An API read of `key`: the next state, the answer and the network work.
/// A job that is still searching for the object's direction is reported as
/// it stands, like a waiting one (a choice of this library: no operation
/// creates such a job yet).
pub open spec fn get_value_step(m: NodeView, key: Seq<u8>) -> (NodeView, Result<GetValueResponseView, DirectorySpecificErrorsView>, Seq<NodeActionView>) {
    if !m.jobs.contains_key(key) {
        if !m.db.contains_key(key) {
            (m, Err(DirectorySpecificErrorsView::KeyDoesNotExist { key }), Seq::empty())
        } else {
            match m.db[key] {
                ValueView::Direct(v) => (m, Ok(GetValueResponseView::Owner(v)), Seq::empty()),
                ValueView::Pointer(p) => {
                    let next = peer_id_parse(p)->Some_0;
                    let source = multiaddr_with_p2p(m.address, m.local_peer)->Ok_0;
                    (
                        NodeView { jobs: m.jobs.insert(key, waiting_job()), ..m },
                        Ok(GetValueResponseView::Requested(RequestJobStateView::Waiting)),
                        seq![NodeActionView::SendRequest { peer: next, request: object_request(key, source) }],
                    )
                },
            }
        }
    } else {
        let job = m.jobs[key];
        match job.state {
            RequestJobStateView::Finished => {
                let v = m.db[key]->Direct_0;
                match job.with_request_info {
                    Some(info) => (
                        NodeView {
                            db: m.db.insert(key, ValueView::Pointer(peer_id_text(info.last_peer))),
                            jobs: m.jobs.remove(key),
                            ..m
                        },
                        Ok(GetValueResponseView::Owner(v)),
                        seq![NodeActionView::SendObject { key, value: v, requester: info.requester }],
                    ),
                    None => (NodeView { jobs: m.jobs.remove(key), ..m }, Ok(GetValueResponseView::Owner(v)), Seq::empty()),
                }
            },
            RequestJobStateView::Failed(e) => (m, Err(e), Seq::empty()),
            _ => (m, Ok(GetValueResponseView::Requested(job.state)), Seq::empty()),
        }
    }
}

/// An API write of a new key: refused when the key is known, otherwise the
/// object is kept here and the key announced.
pub open spec fn add_new_value_step(m: NodeView, key: Seq<u8>, value: Seq<u8>) -> (NodeView, Result<(), Seq<u8>>, Seq<NodeActionView>) {
    if m.db.contains_key(key) {
        (m, Err(key), Seq::empty())
    } else {
        (
            NodeView { db: m.db.insert(key, ValueView::Direct(value)), ..m },
            Ok(()),
            seq![NodeActionView::PublishKey { key }],
        )
    }
}

/// A gossip announcement of `key` from `source`: a node that did not know
/// the key now points to `source`; a node that knows it keeps what it has,
/// so an object it holds is never lost to an announcement.
pub open spec fn gossip_step(m: NodeView, source: PeerId, key: Seq<u8>) -> NodeView {
    if m.db.contains_key(key) {
        m
    } else {
        NodeView { db: m.db.insert(key, ValueView::Pointer(peer_id_text(source))), ..m }
    }
}

/// The inputs on which a request from another node is defined (elsewhere
/// the node would panic): an object request is for a known key, comes from a
/// requester whose address carries its peer id (the object may be sent to
/// that peer), and along a pointer only when the pointer is a peer id; an
/// arriving object is for a key the node has a job for.
pub open spec fn request_defined(m: NodeView, request: DirectoryRequestView) -> bool {
    let key = request.key;
    match request.request_type {
        InnerRequestValueView::ObjectRequest { source } => {
            &&& m.db.contains_key(key)
            &&& multiaddr_peer(source) is Some
            &&& (!m.jobs.contains_key(key) && m.db[key] is Pointer ==> peer_id_parse(m.db[key]->Pointer_0) is Some)
        },
        InnerRequestValueView::ObjectOwnershipSend { .. } => m.jobs.contains_key(key),
        InnerRequestValueView::KeySearch => true,
    }
}

/// A request for the object of `key` from the node at `requester`, passed on
/// by `peer`: a node waiting for the object itself records the request (and
/// passes a second one on to the peer that brought the first); an idle node
/// sends the object, or passes the request along its pointer, and will then
/// point to `peer`.
pub open spec fn object_request_step(m: NodeView, key: Seq<u8>, requester: Multiaddr, peer: PeerId) -> (NodeView, Seq<NodeActionView>, Option<PeerId>) {
    if m.jobs.contains_key(key) {
        let job = m.jobs[key];
        match job.with_request_info {
            None => (
                NodeView {
                    jobs: m.jobs.insert(key, RequestJobView {
                        state: job.state,
                        with_request_info: Some(WithRequestInfo { requester, last_peer: peer }),
                    }),
                    ..m
                },
                Seq::empty(),
                None,
            ),
            Some(previous) => (
                NodeView {
                    jobs: m.jobs.insert(key, RequestJobView {
                        state: job.state,
                        with_request_info: Some(WithRequestInfo { requester: previous.requester, last_peer: peer }),
                    }),
                    ..m
                },
                seq![NodeActionView::SendRequest { peer: previous.last_peer, request: object_request(key, requester) }],
                None,
            ),
        }
    } else {
        match m.db[key] {
            ValueView::Direct(v) => (m, seq![NodeActionView::SendObject { key, value: v, requester }], Some(peer)),
            ValueView::Pointer(p) => (
                m,
                seq![NodeActionView::SendRequest { peer: peer_id_parse(p)->Some_0, request: object_request(key, requester) }],
                Some(peer),
            ),
        }
    }
}

/// The object of `key` arrives: the node keeps it (when it knows the key)
/// and its job for the key is finished.
pub open spec fn ownership_send_step(m: NodeView, key: Seq<u8>, value: Seq<u8>) -> (NodeView, Result<DirectoryResponseView, DirectorySpecificErrorsView>) {
    let job = m.jobs[key];
    let jobs = m.jobs.insert(key, RequestJobView { state: RequestJobStateView::Finished, ..job });
    if m.db.contains_key(key) {
        (NodeView { db: m.db.insert(key, ValueView::Direct(value)), jobs, ..m }, Ok(acknowledgement(key)))
    } else {
        (NodeView { jobs, ..m }, Err(DirectorySpecificErrorsView::UnexpectedRequest { key }))
    }
}

/// A request from `peer`: the next state, the network work, the answer, and
/// the peer to point to once the answer is sent, if any. A key search is
/// answered with whether the node knows the key (a choice of this library:
/// the protocol defines the message and its answer, not when to send them).
pub open spec fn request_step(m: NodeView, request: DirectoryRequestView, peer: PeerId) -> (NodeView, Seq<NodeActionView>, Result<DirectoryResponseView, DirectorySpecificErrorsView>, Option<PeerId>) {
    let key = request.key;
    match request.request_type {
        InnerRequestValueView::ObjectRequest { source } => {
            let (m2, actions, redirect) = object_request_step(m, key, source, peer);
            (m2, actions, Ok(acknowledgement(key)), redirect)
        },
        InnerRequestValueView::ObjectOwnershipSend { value } => {
            let (m2, response) = ownership_send_step(m, key, value);
            (m2, Seq::empty(), response, None)
        },
        InnerRequestValueView::KeySearch => (
            m,
            Seq::empty(),
            Ok(DirectoryResponseView { key, response_type: InnerResponseValue::IsKeyFound(m.db.contains_key(key)) }),
            None,
        ),
    }
}

/// The node now points to `peer` for `key`.
pub open spec fn redirect_step(m: NodeView, key: Seq<u8>, peer: PeerId) -> NodeView {
    NodeView { db: m.db.insert(key, ValueView::Pointer(peer_id_text(peer))), ..m }
}

/// What the Kademlia layer reports, as far as the node acts on it.
pub enum KadEvent {
    /// A closest-peers query finished with these peers.
    ClosestPeersFound { peers: Vec<PeerId> },
    /// Another outbound query made progress.
    QueryProgressed,
    /// The routing table was updated with `peer`.
    RoutingUpdated { peer: PeerId },
    /// A peer that can be added to the routing table was found.
    RoutablePeer { peer: PeerId, address: Multiaddr },
    /// A peer that may be added to the routing table was found.
    PendingRoutablePeer { peer: PeerId, address: Multiaddr },
    /// Anything else.
    Other,
}

/// What the node does on a Kademlia event: the network work, or the error
/// of a closest-peers query that found no peer.
pub open spec fn kad_step(event: KadEvent) -> Result<Seq<NodeActionView>, Seq<char>> {
    match event {
        KadEvent::ClosestPeersFound { peers } => if peers@.len() == 0 {
            Err("Query finished with no closest peers."@)
        } else {
            Ok(Seq::empty())
        },
        KadEvent::RoutingUpdated { peer } => Ok(seq![NodeActionView::AddExplicitPeer { peer }]),
        KadEvent::RoutablePeer { peer, address } => Ok(seq![
            NodeActionView::AddExplicitPeer { peer },
            NodeActionView::Dial { address },
        ]),
        KadEvent::PendingRoutablePeer { address, .. } => Ok(seq![NodeActionView::Dial { address }]),
        _ => Ok(Seq::empty()),
    }
}

/// The view of the outcome of a Kademlia event.
pub open spec fn kad_result_view(r: Result<Vec<NodeAction>, String>) -> Result<Seq<NodeActionView>, Seq<char>> {
    match r {
        Ok(a) => Ok(actions_view(a@)),
        Err(e) => Err(e@),
    }
}

/// What a node does with a request from another node.
pub struct RequestOutcome {
    /// The network work to do before answering.
    pub actions: Vec<NodeAction>,
    /// The answer to send back.
    pub response: DirectoryResponseResult,
    /// Once the answer is sent, the node points for the key to this peer.
    pub redirect: Option<PeerId>,
}

/// Every job of a node is for a key the node knows.
pub open spec fn jobs_have_entries(m: NodeView) -> bool {
    forall|k: Seq<u8>| #[trigger] m.jobs.contains_key(k) ==> m.db.contains_key(k)
}

/// The peer-to-peer node's state.
pub struct Node {
    database: DatabaseType,
    job_manager: RequestJobManager,
    local_peer: PeerId,
    address: Multiaddr,
}

impl View for Node {
    type V = NodeView;

    closed spec fn view(&self) -> NodeView {
        NodeView {
            db: self.database.contents(),
            jobs: self.job_manager@,
            local_peer: self.local_peer,
            address: self.address,
        }
    }
}

impl Node {
    /// The node's well-formedness: it only has jobs for keys it knows.
    /// Every node built by `new` has it, and every operation keeps it.
    pub open spec fn well_formed(&self) -> bool {
        jobs_have_entries(self@)
    }

    /// A node with the given database, peer id and listening address, and no jobs.
    pub fn new(database: DatabaseType, local_peer: PeerId, address: Multiaddr) -> (r: Node)
        ensures
            r@ == (NodeView {
                db: database.contents(),
                jobs: Map::empty(),
                local_peer,
                address,
            }),
            r.well_formed(),
    {
        Node { database, job_manager: RequestJobManager::new(), local_peer, address }
    }

    /// The database of the node.
    pub fn database(&self) -> (r: &DatabaseType)
        ensures
            r.contents() == self@.db,
    {
        &self.database
    }

    /// The number of jobs of the node.
    pub fn job_count(&self) -> (r: usize)
        ensures
            r == self@.jobs.len(),
    {
        self.job_manager.len()
    }

    /// The job of the node for `key`, if any.
    pub fn job(&self, key: &[u8]) -> (r: Option<RequestJob>)
        ensures
            match r {
                Some(job) => self@.jobs.contains_key(key@) && job@ == self@.jobs[key@],
                None => !self@.jobs.contains_key(key@),
            },
    {
        self.job_manager.get(key)
    }

    /// Opens a waiting job for `key`.
    fn start_new_job(&mut self, key: Vec<u8>) -> (r: RequestJobState)
        requires
            old(self)@.db.contains_key(key@),
        ensures
            r@ == RequestJobStateView::Waiting,
            final(self)@ == (NodeView { jobs: old(self)@.jobs.insert(key@, waiting_job()), ..old(self)@ }),
    {
        let job_state = RequestJobState::Waiting;
        let _ = self.job_manager.insert(key, RequestJob { state: job_state.clone(), with_request_info: None });
        job_state
    }

    /// Asks the peer at `next_peer` for the object of `key` and opens a job for it.
    fn start_request_process(&mut self, key: Vec<u8>, next_peer: String) -> (r: (RequestJobState, NodeAction))
        requires
            old(self)@.db.contains_key(key@),
            peer_id_parse(next_peer@) is Some,
            multiaddr_with_p2p(old(self)@.address, old(self)@.local_peer) is Ok,
        ensures
            r.0@ == RequestJobStateView::Waiting,
            r.1@ == (NodeActionView::SendRequest {
                peer: peer_id_parse(next_peer@)->Some_0,
                request: object_request(key@, multiaddr_with_p2p(old(self)@.address, old(self)@.local_peer)->Ok_0),
            }),
            final(self)@ == (NodeView { jobs: old(self)@.jobs.insert(key@, waiting_job()), ..old(self)@ }),
    {
        let next = peer_id_from_text(next_peer.as_str()).unwrap();
        let source = address_with_p2p(self.address.clone(), self.local_peer).unwrap();
        let request = DirectoryRequest {
            key: copy_bytes(&key),
            request_type: InnerRequestValue::ObjectRequest { source },
        };
        let state = self.start_new_job(key);
        (state, NodeAction::SendRequest { peer: next, request })
    }

    /// Answers an API read of `key`: the object when this node owns it, the
    /// state of the request under way otherwise (asking the next peer on the
    /// first read); a finished job hands the object on to a waiting requester.
    pub fn get_value(&mut self, key: Vec<u8>) -> (r: (Result<GetValueResponse, DirectorySpecificErrors>, Vec<NodeAction>))
        requires
            get_value_defined(old(self)@, key@),
        ensures
            final(self)@ == get_value_step(old(self)@, key@).0,
            get_result_view(r.0) == get_value_step(old(self)@, key@).1,
            actions_view(r.1@) == get_value_step(old(self)@, key@).2,
            old(self).well_formed() ==> final(self).well_formed(),
    {
        let ghost m = self@;
        match self.job_manager.get(key.as_slice()) {
            None => {
                match self.database.get(key.as_slice()) {
                    None => {
                        let r = (
                            Err(DirectorySpecificErrors::KeyDoesNotExist(KeyDoesNotExist { key })),
                            Vec::new(),
                        );
                        assert(actions_view(r.1@) =~= Seq::empty());
                        r
                    },
                    Some(Value::Direct(value)) => {
                        let r = (Ok(GetValueResponse::Owner(value)), Vec::new());
                        assert(actions_view(r.1@) =~= Seq::empty());
                        r
                    },
                    Some(Value::Pointer(next_peer)) => {
                        let (state, action) = self.start_request_process(key, next_peer);
                        let mut actions = Vec::new();
                        actions.push(action);
                        assert(actions_view(actions@) =~= get_value_step(m, key@).2);
                        (Ok(GetValueResponse::Requested(state)), actions)
                    },
                }
            },
            Some(job) => {
                match job.state {
                    RequestJobState::Finished => {
                        let actual_data = self.database.get(key.as_slice()).unwrap();
                        let actual_data = match actual_data {
                            Value::Direct(v) => v,
                            Value::Pointer(_) => {
                                assert(false);
                                Vec::new()
                            },
                        };
                        let mut actions = Vec::new();
                        if let Some(info) = job.with_request_info {
                            let pointer = peer_id_to_text(&info.last_peer);
                            let _ = self.database.update(copy_bytes(&key), Value::Pointer(pointer));
                            actions.push(NodeAction::SendObject {
                                key: copy_bytes(&key),
                                value: copy_bytes(&actual_data),
                                requester: info.requester,
                            });
                        }
                        let _ = self.job_manager.remove(key.as_slice());
                        assert(actions_view(actions@) =~= get_value_step(m, key@).2);
                        assert(self@ =~= get_value_step(m, key@).0);
                        (Ok(GetValueResponse::Owner(actual_data)), actions)
                    },
                    RequestJobState::Failed(e) => {
                        let r = (Err(e), Vec::new());
                        assert(actions_view(r.1@) =~= Seq::empty());
                        r
                    },
                    RequestJobState::Waiting => {
                        let r = (Ok(GetValueResponse::Requested(RequestJobState::Waiting)), Vec::new());
                        assert(actions_view(r.1@) =~= Seq::empty());
                        r
                    },
                    RequestJobState::SearchingDirection(s) => {
                        let r = (Ok(GetValueResponse::Requested(RequestJobState::SearchingDirection(s))), Vec::new());
                        assert(actions_view(r.1@) =~= Seq::empty());
                        r
                    },
                }
            },
        }
    }

    /// Adds a new key with its object, owned by this node, and announces the
    /// key; a key the node already knows is refused.
    pub fn add_new_value(&mut self, key: Vec<u8>, value: Vec<u8>) -> (r: (Result<(), KeyAlreadyExists>, Vec<NodeAction>))
        ensures
            final(self)@ == add_new_value_step(old(self)@, key@, value@).0,
            add_result_view(r.0) == add_new_value_step(old(self)@, key@, value@).1,
            actions_view(r.1@) == add_new_value_step(old(self)@, key@, value@).2,
            old(self).well_formed() ==> final(self).well_formed(),
    {
        let ghost m = self@;
        match self.database.get(key.as_slice()) {
            None => self.database.insert(copy_bytes(&key), Value::Direct(value)),
            Some(_) => {
                let r = (Err(KeyAlreadyExists { key }), Vec::new());
                assert(actions_view(r.1@) =~= Seq::empty());
                return r;
            },
        }
        let mut actions = Vec::new();
        actions.push(NodeAction::PublishKey { key });
        assert(actions_view(actions@) =~= add_new_value_step(m, key@, value@).2);
        (Ok(()), actions)
    }

    /// A gossip announcement of `key` from `source`.
    pub fn handle_gossip_message(&mut self, source: PeerId, key: Vec<u8>)
        ensures
            final(self)@ == gossip_step(old(self)@, source, key@),
            old(self).well_formed() ==> final(self).well_formed(),
    {
        match self.database.get(key.as_slice()) {
            Some(_) => {},
            None => {
                let pointer = peer_id_to_text(&source);
                self.database.insert(key, Value::Pointer(pointer));
            },
        }
    }

    /// A request for the object of `key` on behalf of `requester`, passed on by `peer`.
    fn handle_object_request(&mut self, key: Vec<u8>, requester: Multiaddr, peer: PeerId) -> (r: (Vec<NodeAction>, Option<PeerId>))
        requires
            request_defined(old(self)@, object_request(key@, requester)),
        ensures
            final(self)@ == object_request_step(old(self)@, key@, requester, peer).0,
            actions_view(r.0@) == object_request_step(old(self)@, key@, requester, peer).1,
            r.1 == object_request_step(old(self)@, key@, requester, peer).2,
    {
        let ghost m = self@;
        let value = self.database.get(key.as_slice()).unwrap();
        let mut actions = Vec::new();
        match self.job_manager.get(key.as_slice()) {
            Some(job) => {
                let state = job.state;
                match job.with_request_info {
                    None => {
                        let info = WithRequestInfo { requester, last_peer: peer };
                        let _ = self.job_manager.insert(key, RequestJob { state, with_request_info: Some(info) });
                    },
                    Some(previous) => {
                        let info = WithRequestInfo { requester: previous.requester, last_peer: peer };
                        let _ = self.job_manager.insert(copy_bytes(&key), RequestJob { state, with_request_info: Some(info) });
                        actions.push(NodeAction::SendRequest {
                            peer: previous.last_peer,
                            request: DirectoryRequest {
                                key,
                                request_type: InnerRequestValue::ObjectRequest { source: requester },
                            },
                        });
                    },
                }
                assert(actions_view(actions@) =~= object_request_step(m, key@, requester, peer).1);
                (actions, None)
            },
            None => {
                match value {
                    Value::Direct(v) => {
                        actions.push(NodeAction::SendObject { key, value: v, requester });
                    },
                    Value::Pointer(next_peer) => {
                        let next = peer_id_from_text(next_peer.as_str()).unwrap();
                        actions.push(NodeAction::SendRequest {
                            peer: next,
                            request: DirectoryRequest {
                                key,
                                request_type: InnerRequestValue::ObjectRequest { source: requester },
                            },
                        });
                    },
                }
                assert(actions_view(actions@) =~= object_request_step(m, key@, requester, peer).1);
                (actions, Some(peer))
            },
        }
    }

    /// The object of `key` arrives from its previous owner.
    fn handle_object_ownership_send(&mut self, key: Vec<u8>, value: Vec<u8>) -> (r: DirectoryResponseResult)
        requires
            old(self)@.jobs.contains_key(key@),
        ensures
            final(self)@ == ownership_send_step(old(self)@, key@, value@).0,
            response_result_view(r) == ownership_send_step(old(self)@, key@, value@).1,
    {
        let ghost m = self@;
        let response = match self.database.get(key.as_slice()) {
            None => Err(DirectorySpecificErrors::UnexpectedRequest(UnexpectedRequest { key: copy_bytes(&key) })),
            Some(_) => {
                let _ = self.database.update(copy_bytes(&key), Value::Direct(value));
                Ok(DirectoryResponse { key: copy_bytes(&key), response_type: InnerResponseValue::ReceivedIncomingRequest })
            },
        };
        let job = self.job_manager.get(key.as_slice()).unwrap();
        let _ = self.job_manager.insert(key, RequestJob { state: RequestJobState::Finished, with_request_info: job.with_request_info });
        assert(self@ =~= ownership_send_step(m, key@, value@).0);
        response
    }

    /// Handles a request from `peer`. The caller performs the actions, sends
    /// the response and, once it is sent, calls `redirect_pointer` with the
    /// outcome's `redirect` peer, if any.
    pub fn handle_request(&mut self, request: DirectoryRequest, peer: PeerId) -> (r: RequestOutcome)
        requires
            request_defined(old(self)@, request@),
        ensures
            final(self)@ == request_step(old(self)@, request@, peer).0,
            actions_view(r.actions@) == request_step(old(self)@, request@, peer).1,
            response_result_view(r.response) == request_step(old(self)@, request@, peer).2,
            r.redirect == request_step(old(self)@, request@, peer).3,
            old(self).well_formed() ==> final(self).well_formed(),
    {
        let key = request.key;
        match request.request_type {
            InnerRequestValue::ObjectRequest { source } => {
                let ack = DirectoryResponse { key: copy_bytes(&key), response_type: InnerResponseValue::ReceivedIncomingRequest };
                let (actions, redirect) = self.handle_object_request(key, source, peer);
                RequestOutcome { actions, response: Ok(ack), redirect }
            },
            InnerRequestValue::ObjectOwnershipSend { value } => {
                let response = self.handle_object_ownership_send(key, value);
                let actions = Vec::new();
                assert(actions_view(actions@) =~= Seq::empty());
                RequestOutcome { actions, response, redirect: None }
            },
            InnerRequestValue::KeySearch => {
                let found = match self.database.get(key.as_slice()) {
                    Some(_) => true,
                    None => false,
                };
                let actions = Vec::new();
                assert(actions_view(actions@) =~= Seq::empty());
                RequestOutcome {
                    actions,
                    response: Ok(DirectoryResponse { key, response_type: InnerResponseValue::IsKeyFound(found) }),
                    redirect: None,
                }
            },
        }
    }

    /// After answering an object request, the node points for `key` to `peer`.
    pub fn redirect_pointer(&mut self, key: Vec<u8>, peer: PeerId)
        ensures
            final(self)@ == redirect_step(old(self)@, key@, peer),
            old(self).well_formed() ==> final(self).well_formed(),
    {
        let ghost key_view = key@;
        let pointer = peer_id_to_text(&peer);
        let _ = self.database.update(key, Value::Pointer(pointer));
        assert(self@.db == old(self)@.db.insert(key_view, ValueView::Pointer(peer_id_text(peer))));
    }

    /// Whether `get_value` is defined for `key` in this state.
    fn get_value_is_defined(&self, key: &[u8]) -> (r: bool)
        ensures
            r == get_value_defined(self@, key@),
    {
        match self.job_manager.get(key) {
            Some(job) => match job.state {
                RequestJobState::Finished => match self.database.get(key) {
                    Some(Value::Direct(_)) => true,
                    _ => false,
                },
                _ => true,
            },
            None => match self.database.get(key) {
                Some(Value::Pointer(p)) => {
                    let parses = match peer_id_from_text(p.as_str()) {
                        Some(_) => true,
                        None => false,
                    };
                    let extends = match address_with_p2p(self.address.clone(), self.local_peer) {
                        Ok(_) => true,
                        Err(_) => false,
                    };
                    parses && extends
                },
                _ => true,
            },
        }
    }

    /// `get_value` where it is defined; `None`, with the node unchanged, where
    /// it is not (a finished job without the object, a pointer that is no
    /// peer id, or an own address that cannot carry the node's peer id).
    pub fn try_get_value(&mut self, key: Vec<u8>) -> (r: Option<(Result<GetValueResponse, DirectorySpecificErrors>, Vec<NodeAction>)>)
        ensures
            get_value_defined(old(self)@, key@) ==> {
                &&& r is Some
                &&& final(self)@ == get_value_step(old(self)@, key@).0
                &&& get_result_view(r->Some_0.0) == get_value_step(old(self)@, key@).1
                &&& actions_view(r->Some_0.1@) == get_value_step(old(self)@, key@).2
            },
            !get_value_defined(old(self)@, key@) ==> r is None && final(self)@ == old(self)@,
            old(self).well_formed() ==> final(self).well_formed(),
    {
        if self.get_value_is_defined(key.as_slice()) {
            Some(self.get_value(key))
        } else {
            None
        }
    }

    /// Whether `handle_request` is defined for `request` in this state.
    fn request_is_defined(&self, request: &DirectoryRequest) -> (r: bool)
        ensures
            r == request_defined(self@, request@),
    {
        let key = request.key.as_slice();
        match &request.request_type {
            InnerRequestValue::ObjectRequest { source } => {
                let has_peer = match peer_id_from_multiaddr(source.clone()) {
                    Ok(_) => true,
                    Err(_) => false,
                };
                match self.database.get(key) {
                    None => false,
                    Some(Value::Direct(_)) => has_peer,
                    Some(Value::Pointer(p)) => {
                        let has_job = match self.job_manager.get(key) {
                            Some(_) => true,
                            None => false,
                        };
                        let parses = match peer_id_from_text(p.as_str()) {
                            Some(_) => true,
                            None => false,
                        };
                        has_peer && (has_job || parses)
                    },
                }
            },
            InnerRequestValue::ObjectOwnershipSend { .. } => match self.job_manager.get(key) {
                Some(_) => true,
                None => false,
            },
            InnerRequestValue::KeySearch => true,
        }
    }

    /// `handle_request` where it is defined; `None`, with the node unchanged,
    /// where it is not (an object request for an unknown key, from an
    /// address without a peer id or along a pointer that is no peer id, or an
    /// object arriving for a key without a job).
    pub fn try_handle_request(&mut self, request: DirectoryRequest, peer: PeerId) -> (r: Option<RequestOutcome>)
        ensures
            request_defined(old(self)@, request@) ==> {
                &&& r is Some
                &&& final(self)@ == request_step(old(self)@, request@, peer).0
                &&& actions_view(r->Some_0.actions@) == request_step(old(self)@, request@, peer).1
                &&& response_result_view(r->Some_0.response) == request_step(old(self)@, request@, peer).2
                &&& r->Some_0.redirect == request_step(old(self)@, request@, peer).3
            },
            !request_defined(old(self)@, request@) ==> r is None && final(self)@ == old(self)@,
            old(self).well_formed() ==> final(self).well_formed(),
    {
        if self.request_is_defined(&request) {
            Some(self.handle_request(request, peer))
        } else {
            None
        }
    }

    /// What the node does on a Kademlia event.
    pub fn handle_kad_event(event: KadEvent) -> (r: Result<Vec<NodeAction>, String>)
        ensures
            kad_result_view(r) == kad_step(event),
    {
        let ghost e = event;
        let mut actions = Vec::new();
        match event {
            KadEvent::ClosestPeersFound { peers } => {
                if peers.len() == 0 {
                    return Err(String::from_str("Query finished with no closest peers."));
                }
            },
            KadEvent::RoutingUpdated { peer } => {
                actions.push(NodeAction::AddExplicitPeer { peer });
            },
            KadEvent::RoutablePeer { peer, address } => {
                actions.push(NodeAction::AddExplicitPeer { peer });
                actions.push(NodeAction::Dial { address });
            },
            KadEvent::PendingRoutablePeer { address, .. } => {
                actions.push(NodeAction::Dial { address });
            },
            _ => {},
        }
        assert(actions_view(actions@) =~= kad_step(e)->Ok_0);
        Ok(actions)
    }
}

} // verus!
