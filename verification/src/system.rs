//! A network of nodes: the nodes' states, the objects on their way between
//! them, and the exclusive ownership of each object.

use vstd::prelude::*;
use libp2p::PeerId;
use crate::communication_types::{DirectoryRequestView, InnerRequestValueView};
use crate::db::ValueView;
use crate::node::{
    NodeActionView, NodeView, add_new_value_step, get_value_defined, get_value_step, gossip_step,
    redirect_step, request_defined, request_step,
};

verus! {

/// The nodes of a network, by peer id, and the objects sent by one node to
/// another that have not arrived yet, as (key, object) pairs.
pub struct SystemView {
    pub nodes: Map<PeerId, NodeView>,
    pub in_flight: Seq<(Seq<u8>, Seq<u8>)>,
}

/// The objects that a list of actions sends to other nodes.
pub open spec fn sent_objects(actions: Seq<NodeActionView>) -> Seq<(Seq<u8>, Seq<u8>)>
    decreases actions.len(),
{
    if actions.len() == 0 {
        Seq::empty()
    } else {
        let before = sent_objects(actions.drop_last());
        match actions.last() {
            NodeActionView::SendObject { key, value, .. } => before.push((key, value)),
            _ => before,
        }
    }
}

/// What happens in a network.
pub enum SystemEvent {
    /// A node answers an API read.
    Read { node: PeerId, key: Seq<u8> },
    /// A node accepts an API write of a new key.
    Add { node: PeerId, key: Seq<u8>, value: Seq<u8> },
    /// A node hears a gossip announcement.
    Gossip { node: PeerId, source: PeerId, key: Seq<u8> },
    /// A node handles an object request passed on by `from`, answers it, and
    /// then points where the outcome asks.
    ObjectRequest { node: PeerId, request: DirectoryRequestView, from: PeerId },
    /// The object sent as `in_flight[index]` arrives at a node, from `from`.
    Arrival { node: PeerId, index: int, from: PeerId },
}

/// A node holds the object of `key`.
pub open spec fn holds(n: NodeView, key: Seq<u8>) -> bool {
    n.db.contains_key(key) && n.db[key] is Direct
}

/// No node holds the object of `key` and none is on its way.
pub open spec fn nowhere(s: SystemView, key: Seq<u8>) -> bool {
    &&& forall|p: PeerId| #[trigger] s.nodes.contains_key(p) ==> !holds(s.nodes[p], key)
    &&& forall|i: int| 0 <= i < s.in_flight.len() ==> #[trigger] s.in_flight[i].0 != key
}

/// When an event can happen: the node exists and its operation is defined
/// there; an object request is an object request; an arriving object is one
/// on its way; and a key is only added where no node holds it and none is on
/// its way (each key is added once).
pub open spec fn event_allowed(s: SystemView, e: SystemEvent) -> bool {
    match e {
        SystemEvent::Read { node, key } => s.nodes.contains_key(node) && get_value_defined(s.nodes[node], key),
        SystemEvent::Add { node, key, .. } => s.nodes.contains_key(node) && nowhere(s, key),
        SystemEvent::Gossip { node, .. } => s.nodes.contains_key(node),
        SystemEvent::ObjectRequest { node, request, .. } => {
            &&& s.nodes.contains_key(node)
            &&& request.request_type is ObjectRequest
            &&& request_defined(s.nodes[node], request)
        },
        SystemEvent::Arrival { node, index, .. } => {
            &&& s.nodes.contains_key(node)
            &&& 0 <= index < s.in_flight.len()
            &&& request_defined(s.nodes[node], arrival_request(s, index))
        },
    }
}

/// The request by which the object sent as `in_flight[index]` arrives.
pub open spec fn arrival_request(s: SystemView, index: int) -> DirectoryRequestView {
    DirectoryRequestView {
        key: s.in_flight[index].0,
        request_type: InnerRequestValueView::ObjectOwnershipSend { value: s.in_flight[index].1 },
    }
}

/// The network after an event.
pub open spec fn system_step(s: SystemView, e: SystemEvent) -> SystemView {
    match e {
        SystemEvent::Read { node, key } => {
            let (n, _, actions) = get_value_step(s.nodes[node], key);
            SystemView { nodes: s.nodes.insert(node, n), in_flight: s.in_flight + sent_objects(actions) }
        },
        SystemEvent::Add { node, key, value } => {
            let (n, _, actions) = add_new_value_step(s.nodes[node], key, value);
            SystemView { nodes: s.nodes.insert(node, n), in_flight: s.in_flight + sent_objects(actions) }
        },
        SystemEvent::Gossip { node, source, key } => SystemView {
            nodes: s.nodes.insert(node, gossip_step(s.nodes[node], source, key)),
            in_flight: s.in_flight,
        },
        SystemEvent::ObjectRequest { node, request, from } => {
            let (n, actions, _, redirect) = request_step(s.nodes[node], request, from);
            let n2 = match redirect {
                Some(q) => redirect_step(n, request.key, q),
                None => n,
            };
            SystemView { nodes: s.nodes.insert(node, n2), in_flight: s.in_flight + sent_objects(actions) }
        },
        SystemEvent::Arrival { node, index, from } => {
            let (n, actions, _, _) = request_step(s.nodes[node], arrival_request(s, index), from);
            SystemView { nodes: s.nodes.insert(node, n), in_flight: s.in_flight.remove(index) + sent_objects(actions) }
        },
    }
}

/// The ownership of `key` is exclusive: at most one node holds the object,
/// at most one copy is on its way, and never both.
pub open spec fn exclusive(s: SystemView, key: Seq<u8>) -> bool {
    &&& forall|p: PeerId, q: PeerId|
        s.nodes.contains_key(p) && s.nodes.contains_key(q) && #[trigger] holds(s.nodes[p], key)
            && #[trigger] holds(s.nodes[q], key) ==> p == q
    &&& forall|i: int, j: int|
        0 <= i < s.in_flight.len() && 0 <= j < s.in_flight.len() && #[trigger] s.in_flight[i].0 == key
            && #[trigger] s.in_flight[j].0 == key ==> i == j
    &&& forall|p: PeerId, i: int|
        s.nodes.contains_key(p) && #[trigger] holds(s.nodes[p], key) && 0 <= i < s.in_flight.len()
            ==> #[trigger] s.in_flight[i].0 != key
}

proof fn lemma_sent_nothing(actions: Seq<NodeActionView>)
    requires
        forall|i: int| 0 <= i < actions.len() ==> !(#[trigger] actions[i] is SendObject),
    ensures
        sent_objects(actions) == Seq::<(Seq<u8>, Seq<u8>)>::empty(),
    decreases actions.len(),
{
    if actions.len() > 0 {
        lemma_sent_nothing(actions.drop_last());
    }
}

proof fn lemma_sent_one(a: NodeActionView)
    ensures
        sent_objects(seq![a]) == (match a {
            NodeActionView::SendObject { key, value, .. } => seq![(key, value)],
            _ => Seq::<(Seq<u8>, Seq<u8>)>::empty(),
        }),
{
    assert(seq![a].drop_last() =~= Seq::<NodeActionView>::empty());
    assert(seq![a].last() == a);
    assert(sent_objects(Seq::<NodeActionView>::empty()) == Seq::<(Seq<u8>, Seq<u8>)>::empty());
    match a {
        NodeActionView::SendObject { key, value, .. } => {
            assert(Seq::<(Seq<u8>, Seq<u8>)>::empty().push((key, value)) =~= seq![(key, value)]);
        },
        _ => {},
    }
}

/// A network whose nodes know no key has exclusive ownership of every key.
pub proof fn law_empty_network_exclusive(nodes: Map<PeerId, NodeView>, key: Seq<u8>)
    requires
        forall|p: PeerId| #[trigger] nodes.contains_key(p) ==> nodes[p].db == Map::<Seq<u8>, ValueView>::empty(),
    ensures
        exclusive(SystemView { nodes, in_flight: Seq::empty() }, key),
{
}

/// Mutual exclusion: every event keeps the ownership of every key
/// exclusive. The one event that would break it, the same key added on two
/// nodes, is not allowed (each key is added once).
pub proof fn law_exclusive_ownership(s: SystemView, e: SystemEvent, key: Seq<u8>)
    requires
        exclusive(s, key),
        event_allowed(s, e),
    ensures
        exclusive(system_step(s, e), key),
{
    let s2 = system_step(s, e);
    match e {
        SystemEvent::Read { node, key: k } => {
            lemma_node_change_read(s, node, k, key);
        },
        SystemEvent::Add { node, key: k, value } => {
            let (n, _, actions) = add_new_value_step(s.nodes[node], k, value);
            if actions.len() == 1 {
                lemma_sent_one(actions[0]);
                assert(actions =~= seq![actions[0]]);
            } else {
                lemma_sent_nothing(actions);
            }
            assert(s2.in_flight =~= s.in_flight);
            if k == key {
                assert forall|p: PeerId| s2.nodes.contains_key(p) && #[trigger] holds(s2.nodes[p], key) implies p == node by {
                    if p != node {
                        assert(s.nodes.contains_key(p));
                        assert(holds(s.nodes[p], key));
                    }
                }
            } else {
                assert forall|p: PeerId| #[trigger] s2.nodes.contains_key(p) implies holds(s2.nodes[p], key) == holds(s.nodes[p], key) by {}
            }
        },
        SystemEvent::Gossip { node, source, key: k } => {
            assert forall|p: PeerId| #[trigger] s2.nodes.contains_key(p) implies holds(s2.nodes[p], key) == holds(s.nodes[p], key) by {}
        },
        SystemEvent::ObjectRequest { node, request, from } => {
            lemma_node_change_request(s, node, request, from, key);
        },
        SystemEvent::Arrival { node, index, from } => {
            lemma_node_change_arrival(s, node, index, from, key);
        },
    }
}

proof fn lemma_node_change_read(s: SystemView, node: PeerId, k: Seq<u8>, key: Seq<u8>)
    requires
        exclusive(s, key),
        event_allowed(s, SystemEvent::Read { node, key: k }),
    ensures
        exclusive(system_step(s, SystemEvent::Read { node, key: k }), key),
{
    let s2 = system_step(s, SystemEvent::Read { node, key: k });
    let m = s.nodes[node];
    let (n, _, actions) = get_value_step(m, k);
    if m.jobs.contains_key(k) && m.jobs[k].state is Finished && m.jobs[k].with_request_info is Some {
        lemma_sent_one(actions[0]);
        assert(actions =~= seq![actions[0]]);
        let v = m.db[k]->Direct_0;
        assert(s2.in_flight =~= s.in_flight.push((k, v)));
        if k == key {
            assert(holds(m, key));
            assert(!holds(n, key));
            assert forall|p: PeerId| #[trigger] s2.nodes.contains_key(p) implies !holds(s2.nodes[p], key) by {
                if p != node {
                    assert(s.nodes.contains_key(p));
                    if holds(s.nodes[p], key) {
                        assert(holds(s.nodes[node], key));
                    }
                }
            }
            assert forall|i: int| 0 <= i < s.in_flight.len() implies #[trigger] s2.in_flight[i].0 != key by {
                assert(s2.in_flight[i] == s.in_flight[i]);
            }
        } else {
            assert forall|p: PeerId| #[trigger] s2.nodes.contains_key(p) implies holds(s2.nodes[p], key) == holds(s.nodes[p], key) by {}
            assert forall|i: int| 0 <= i < s2.in_flight.len() && #[trigger] s2.in_flight[i].0 == key implies i < s.in_flight.len() && s.in_flight[i] == s2.in_flight[i] by {}
        }
    } else {
        if actions.len() == 1 {
            lemma_sent_one(actions[0]);
            assert(actions =~= seq![actions[0]]);
        } else {
            lemma_sent_nothing(actions);
        }
        assert(s2.in_flight =~= s.in_flight);
        assert forall|p: PeerId| #[trigger] s2.nodes.contains_key(p) implies holds(s2.nodes[p], key) == holds(s.nodes[p], key) by {}
    }
}

proof fn lemma_node_change_request(s: SystemView, node: PeerId, request: DirectoryRequestView, from: PeerId, key: Seq<u8>)
    requires
        exclusive(s, key),
        event_allowed(s, SystemEvent::ObjectRequest { node, request, from }),
    ensures
        exclusive(system_step(s, SystemEvent::ObjectRequest { node, request, from }), key),
{
    let s2 = system_step(s, SystemEvent::ObjectRequest { node, request, from });
    let m = s.nodes[node];
    let k = request.key;
    let (n, actions, _, redirect) = request_step(m, request, from);
    lemma_sent_one(actions[0]);
    if actions.len() == 1 {
        assert(actions =~= seq![actions[0]]);
    } else {
        lemma_sent_nothing(actions);
    }
    if !m.jobs.contains_key(k) && m.db[k] is Direct {
        let v = m.db[k]->Direct_0;
        assert(s2.in_flight =~= s.in_flight.push((k, v)));
        if k == key {
            assert(holds(m, key));
            assert forall|p: PeerId| #[trigger] s2.nodes.contains_key(p) implies !holds(s2.nodes[p], key) by {
                if p != node {
                    assert(s.nodes.contains_key(p));
                    if holds(s.nodes[p], key) {
                        assert(holds(s.nodes[node], key));
                    }
                }
            }
            assert forall|i: int| 0 <= i < s.in_flight.len() implies #[trigger] s2.in_flight[i].0 != key by {
                assert(s2.in_flight[i] == s.in_flight[i]);
            }
        } else {
            assert forall|p: PeerId| #[trigger] s2.nodes.contains_key(p) implies holds(s2.nodes[p], key) == holds(s.nodes[p], key) by {}
            assert forall|i: int| 0 <= i < s2.in_flight.len() && #[trigger] s2.in_flight[i].0 == key implies i < s.in_flight.len() && s.in_flight[i] == s2.in_flight[i] by {}
        }
    } else {
        assert(s2.in_flight =~= s.in_flight);
        assert forall|p: PeerId| #[trigger] s2.nodes.contains_key(p) implies holds(s2.nodes[p], key) == holds(s.nodes[p], key) by {}
    }
}

proof fn lemma_node_change_arrival(s: SystemView, node: PeerId, index: int, from: PeerId, key: Seq<u8>)
    requires
        exclusive(s, key),
        event_allowed(s, SystemEvent::Arrival { node, index, from }),
    ensures
        exclusive(system_step(s, SystemEvent::Arrival { node, index, from }), key),
{
    let s2 = system_step(s, SystemEvent::Arrival { node, index, from });
    let m = s.nodes[node];
    let (k, v) = s.in_flight[index];
    let (n, actions, _, _) = request_step(m, arrival_request(s, index), from);
    assert(actions =~= Seq::<NodeActionView>::empty());
    lemma_sent_nothing(actions);
    let rest = s.in_flight.remove(index);
    assert(s2.in_flight =~= rest);
    assert forall|i: int| 0 <= i < rest.len() implies #[trigger] rest[i] == s.in_flight[if i < index { i } else { i + 1 }] by {}
    if k == key {
        assert forall|p: PeerId| #[trigger] s2.nodes.contains_key(p) && holds(s2.nodes[p], key) implies p == node by {
            if p != node {
                assert(s.nodes.contains_key(p));
                assert(holds(s.nodes[p], key));
            }
        }
        assert forall|i: int| 0 <= i < rest.len() implies #[trigger] rest[i].0 != key by {
            let j = if i < index { i } else { i + 1 };
            assert(rest[i] == s.in_flight[j]);
            assert(j != index);
        }
    } else {
        assert forall|p: PeerId| #[trigger] s2.nodes.contains_key(p) implies holds(s2.nodes[p], key) == holds(s.nodes[p], key) by {}
        assert forall|i: int, j: int|
            0 <= i < rest.len() && 0 <= j < rest.len() && #[trigger] rest[i].0 == key && #[trigger] rest[j].0 == key implies i == j by {
            let i2 = if i < index { i } else { i + 1 };
            let j2 = if j < index { j } else { j + 1 };
            assert(rest[i] == s.in_flight[i2]);
            assert(rest[j] == s.in_flight[j2]);
        }
        assert forall|p: PeerId, i: int|
            s2.nodes.contains_key(p) && #[trigger] holds(s2.nodes[p], key) && 0 <= i < rest.len() implies #[trigger] rest[i].0 != key by {
            let i2 = if i < index { i } else { i + 1 };
            assert(rest[i] == s.in_flight[i2]);
            assert(holds(s.nodes[p], key));
        }
    }
}

} // verus!
