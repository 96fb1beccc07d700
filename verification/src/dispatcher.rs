//! Routing infrastructure for the dataflow graph.
//!
//! - A [`RoutingTable`] maps `(source_node, output_port)` to downstream
//!   `(target_input_port, sender)` entries; [`wire`] builds it, one route
//!   per connection, together with one channel per node.
//!
//! - A [`Coordinator`] folds over done signals: on each one it reports the
//!   nodes whose upstream producers have all finished, which are then sent
//!   [`Event::Stop`], and whether every node has finished.

use std::collections::HashMap;
use std::sync::mpsc::{Receiver, Sender};

use vstd::prelude::*;

use crate::channel::{
    clone_event_sender, open_event_channel, receiver_channel, send_along, sender_channel, Sent,
};
use crate::event::Event;
use crate::graph::{
    contains_id, contains_node, ids_distinct, is_upstream_of, leaves_from, position_of,
    Connection, DataflowGraph, InputPort, NodeDescriptor, NodeId, OutputPort,
};

verus! {

broadcast use vstd::std_specs::hash::group_hash_axioms;

/// A single route: data from `(source_node, source_port)` is delivered to
/// the channel of vertex `target` as an [`Event::Input`] with
/// `target_port`.
pub struct Route {
    source_node: NodeId,
    source_port: OutputPort,
    target_port: InputPort,
    target: usize,
}

impl Route {
    /// The node whose output the route carries.
    pub closed spec fn spec_source_node(&self) -> NodeId {
        self.source_node
    }

    /// The output port whose data the route carries.
    pub closed spec fn spec_source_port(&self) -> OutputPort {
        self.source_port
    }

    /// The input port the data arrives on.
    pub closed spec fn spec_target_port(&self) -> InputPort {
        self.target_port
    }

    /// The vertex index of the node the data goes to.
    pub closed spec fn spec_target(&self) -> usize {
        self.target
    }

    /// The vertex index of the node the data goes to.
    pub fn target(&self) -> (r: usize)
        ensures
            r == self.spec_target(),
    {
        self.target
    }

    /// The event this route delivers for `data`.
    pub fn input_event(&self, data: &[u8]) -> (r: Event)
        ensures
            r matches Event::Input { port, data: d } && port@ == self.spec_target_port()@ && d@
                == data@,
    {
        Event::Input { port: self.target_port.clone(), data: copy_bytes(data) }
    }
}

/// `a` and `b` carry the same source, ports and target.
pub open spec fn same_route(a: Route, b: Route) -> bool {
    &&& a.spec_source_node() == b.spec_source_node()
    &&& a.spec_source_port()@ == b.spec_source_port()@
    &&& a.spec_target_port()@ == b.spec_target_port()@
    &&& a.spec_target() == b.spec_target()
}

impl Clone for Route {
    fn clone(&self) -> (r: Self)
        ensures
            same_route(r, *self),
    {
        Route {
            source_node: self.source_node,
            source_port: self.source_port.clone(),
            target_port: self.target_port.clone(),
            target: self.target,
        }
    }
}

/// A vector holding the bytes of `data`.
fn copy_bytes(data: &[u8]) -> (r: Vec<u8>)
    ensures
        r@ == data@,
{
    let mut r: Vec<u8> = Vec::new();
    let n = data.len();
    for i in 0..n
        invariant
            n == data@.len(),
            r@ == data@.take(i as int),
    {
        r.push(data[i]);
        assert(data@.take(i + 1) == data@.take(i as int).push(data@[i as int]));
    }
    assert(data@.take(n as int) == data@);
    r
}

/// The route carries output of `port` on node `node_id`.
pub open spec fn carries(node_id: NodeId, port: OutputPort) -> spec_fn(Route) -> bool {
    |r: Route| r.spec_source_node() == node_id && r.spec_source_port()@ == port@
}

/// The route carries connection `c` of a graph whose nodes are `nodes`:
/// same source node, same ports, and it delivers to the vertex of the
/// connection's target node.
pub open spec fn follows(nodes: Seq<NodeDescriptor>, r: Route, c: Connection) -> bool {
    &&& r.spec_source_node() == c.spec_source_node()
    &&& r.spec_source_port()@ == c.spec_source_port()@
    &&& r.spec_target_port()@ == c.spec_target_port()@
    &&& r.spec_target() == position_of(nodes, c.spec_target_node())
}

/// Route `i` carries connection `i`, for every `i`.
pub open spec fn routes_follow(
    routes: Seq<Route>,
    nodes: Seq<NodeDescriptor>,
    connections: Seq<Connection>,
) -> bool {
    &&& routes.len() == connections.len()
    &&& forall|i: int| 0 <= i < routes.len() ==> follows(nodes, #[trigger] routes[i], connections[i])
}

/// When route `i` carries connection `i` for every `i`, the routes that
/// carry output of `(node_id, port)` correspond one to one, in order, to
/// the connections leaving `port` of `node_id`: data sent on an output
/// port reaches exactly the target nodes of the connections leaving it.
pub proof fn lemma_routes_match_connections(
    routes: Seq<Route>,
    nodes: Seq<NodeDescriptor>,
    connections: Seq<Connection>,
    node_id: NodeId,
    port: OutputPort,
)
    requires
        routes_follow(routes, nodes, connections),
    ensures
        routes_follow(
            routes.filter(carries(node_id, port)),
            nodes,
            connections.filter(leaves_from(node_id, port)),
        ),
    decreases routes.len(),
{
    let p = carries(node_id, port);
    let q = leaves_from(node_id, port);
    if routes.len() == 0 {
        assert(routes.filter(p) =~= Seq::<Route>::empty());
        assert(connections.filter(q) =~= Seq::<Connection>::empty());
    } else {
        let rs = routes.drop_last();
        let cs = connections.drop_last();
        assert forall|i: int| 0 <= i < rs.len() implies follows(nodes, #[trigger] rs[i], cs[i]) by {
            assert(follows(nodes, routes[i], connections[i]));
        }
        lemma_routes_match_connections(rs, nodes, cs, node_id, port);
        let r = routes.last();
        let c = connections.last();
        assert(follows(nodes, routes[routes.len() - 1], connections[routes.len() - 1]));
        assert(routes =~= rs.push(r));
        assert(connections =~= cs.push(c));
        rs.lemma_filter_push(r, p);
        cs.lemma_filter_push(c, q);
        assert(p(r) == q(c));
        let fr = routes.filter(p);
        let fc = connections.filter(q);
        assert forall|i: int| 0 <= i < fr.len() implies follows(nodes, #[trigger] fr[i], fc[i]) by {
            if i < rs.filter(p).len() {
                assert(follows(nodes, rs.filter(p)[i], cs.filter(q)[i]));
            }
        }
    }
}

/// Receipt `sent` records the delivery of `data` along `route`: the event
/// was handed to the sender of the route's target vertex, and it is an
/// input event on the route's target port carrying `data`.
pub open spec fn delivers(
    senders: Seq<Sender<Event>>,
    route: Route,
    data: Seq<u8>,
    sent: Sent<Event>,
) -> bool {
    &&& sent.spec_sender() == senders[route.spec_target() as int]
    &&& sent.spec_value() matches Event::Input { port, data: d } && port@
        == route.spec_target_port()@ && d@ == data
}

/// Delivering along routes that follow a graph's connections reaches the
/// target nodes of the connections leaving the output port: when the
/// `j`-th sender feeds the `j`-th receiver and the receivers read distinct
/// channels, the `i`-th send of a delivery from `(node_id, port)` goes into
/// the receiver of the target node of the `i`-th connection leaving that
/// port, and into no other receiver, as an input event on that
/// connection's target port carrying the data.
pub proof fn lemma_delivery_reaches_targets(
    routes: Seq<Route>,
    senders: Seq<Sender<Event>>,
    receivers: Seq<Receiver<Event>>,
    nodes: Seq<NodeDescriptor>,
    connections: Seq<Connection>,
    node_id: NodeId,
    port: OutputPort,
    data: Seq<u8>,
    sent: Seq<Sent<Event>>,
)
    requires
        routes_follow(routes, nodes, connections),
        senders.len() == receivers.len(),
        forall|j: int|
            0 <= j < senders.len() ==> sender_channel(#[trigger] senders[j]) == receiver_channel(
                receivers[j],
            ),
        forall|k: int| 0 <= k < routes.len() ==> #[trigger] routes[k].spec_target() < senders.len(),
        forall|a: int, b: int|
            0 <= a < receivers.len() && 0 <= b < receivers.len() && a != b ==> receiver_channel(
                #[trigger] receivers[a],
            ) != receiver_channel(#[trigger] receivers[b]),
        sent.len() == routes.filter(carries(node_id, port)).len(),
        forall|i: int|
            0 <= i < sent.len() ==> delivers(
                senders,
                routes.filter(carries(node_id, port))[i],
                data,
                #[trigger] sent[i],
            ),
    ensures
        sent.len() == connections.filter(leaves_from(node_id, port)).len(),
        forall|i: int|
            0 <= i < sent.len() ==> {
                let c = connections.filter(leaves_from(node_id, port))[i];
                &&& sender_channel(#[trigger] sent[i].spec_sender()) == receiver_channel(
                    receivers[position_of(nodes, c.spec_target_node())],
                )
                &&& sent[i].spec_value() matches Event::Input { port: p, data: d } && p@
                    == c.spec_target_port()@ && d@ == data
                &&& forall|j: int|
                    0 <= j < receivers.len() && j != position_of(nodes, c.spec_target_node())
                        ==> sender_channel(sent[i].spec_sender()) != receiver_channel(
                        #[trigger] receivers[j],
                    )
            },
{
    lemma_routes_match_connections(routes, nodes, connections, node_id, port);
    let fr = routes.filter(carries(node_id, port));
    assert forall|i: int| 0 <= i < sent.len() implies {
        let c = connections.filter(leaves_from(node_id, port))[i];
        &&& sender_channel(#[trigger] sent[i].spec_sender()) == receiver_channel(
            receivers[position_of(nodes, c.spec_target_node())],
        )
        &&& sent[i].spec_value() matches Event::Input { port: p, data: d } && p@
            == c.spec_target_port()@ && d@ == data
        &&& forall|j: int|
            0 <= j < receivers.len() && j != position_of(nodes, c.spec_target_node())
                ==> sender_channel(sent[i].spec_sender()) != receiver_channel(
                #[trigger] receivers[j],
            )
    } by {
        assert(delivers(senders, fr[i], data, sent[i]));
        assert(follows(nodes, fr[i], connections.filter(leaves_from(node_id, port))[i]));
        assert(fr.contains(fr[i]));
        routes.lemma_filter_contains_rev(carries(node_id, port), fr[i]);
        let k = choose|k: int| 0 <= k < routes.len() && routes[k] == fr[i];
        assert(routes[k].spec_target() < senders.len());
        let t = fr[i].spec_target() as int;
        assert forall|j: int| 0 <= j < receivers.len() && j != t implies sender_channel(
            sent[i].spec_sender(),
        ) != receiver_channel(#[trigger] receivers[j]) by {
            assert(receiver_channel(receivers[j]) != receiver_channel(receivers[t]));
        }
    }
}

/// The receipt records a send into the channel that `rx` takes from.
pub open spec fn sent_into(rx: Receiver<Event>) -> spec_fn(Sent<Event>) -> bool {
    |s: Sent<Event>| sender_channel(s.spec_sender()) == receiver_channel(rx)
}

/// The connection arrives at the node with identifier `id`.
pub open spec fn arrives_at(id: NodeId) -> spec_fn(Connection) -> bool {
    |c: Connection| c.spec_target_node() == id
}

/// Two sequences of equal length whose items at each position agree on
/// two predicates keep equally many items under them.
proof fn lemma_filter_lengths_agree<A, B>(
    a: Seq<A>,
    b: Seq<B>,
    p: spec_fn(A) -> bool,
    q: spec_fn(B) -> bool,
)
    requires
        a.len() == b.len(),
        forall|i: int| 0 <= i < a.len() ==> p(#[trigger] a[i]) == q(b[i]),
    ensures
        a.filter(p).len() == b.filter(q).len(),
    decreases a.len(),
{
    if a.len() == 0 {
        assert(a.filter(p) =~= Seq::<A>::empty());
        assert(b.filter(q) =~= Seq::<B>::empty());
    } else {
        let a0 = a.drop_last();
        let b0 = b.drop_last();
        assert forall|i: int| 0 <= i < a0.len() implies p(#[trigger] a0[i]) == q(b0[i]) by {
            assert(p(a[i]) == q(b[i]));
        }
        lemma_filter_lengths_agree(a0, b0, p, q);
        assert(a =~= a0.push(a.last()));
        assert(b =~= b0.push(b.last()));
        a0.lemma_filter_push(a.last(), p);
        b0.lemma_filter_push(b.last(), q);
        assert(p(a[a.len() - 1]) == q(b[b.len() - 1]));
    }
}

/// A delivery puts into each node's channel exactly one event per
/// connection from the output port to that node, and nothing more: among
/// the sends of a delivery from `(node_id, port)` along routes that follow
/// a graph's connections, as many go into the receiver of the `j`-th node
/// as there are connections leaving that port and arriving at that node.
/// A node that no such connection reaches gets none, and a fan-out to two
/// nodes gives each of them one.
pub proof fn lemma_delivery_counts(
    routes: Seq<Route>,
    senders: Seq<Sender<Event>>,
    receivers: Seq<Receiver<Event>>,
    nodes: Seq<NodeDescriptor>,
    connections: Seq<Connection>,
    node_id: NodeId,
    port: OutputPort,
    data: Seq<u8>,
    sent: Seq<Sent<Event>>,
    j: int,
)
    requires
        routes_follow(routes, nodes, connections),
        ids_distinct(nodes),
        forall|c: int|
            0 <= c < connections.len() ==> contains_node(
                nodes,
                #[trigger] connections[c].spec_target_node(),
            ),
        receivers.len() == nodes.len(),
        senders.len() == receivers.len(),
        forall|i: int|
            0 <= i < senders.len() ==> sender_channel(#[trigger] senders[i]) == receiver_channel(
                receivers[i],
            ),
        forall|k: int| 0 <= k < routes.len() ==> #[trigger] routes[k].spec_target() < senders.len(),
        forall|a: int, b: int|
            0 <= a < receivers.len() && 0 <= b < receivers.len() && a != b ==> receiver_channel(
                #[trigger] receivers[a],
            ) != receiver_channel(#[trigger] receivers[b]),
        sent.len() == routes.filter(carries(node_id, port)).len(),
        forall|i: int|
            0 <= i < sent.len() ==> delivers(
                senders,
                routes.filter(carries(node_id, port))[i],
                data,
                #[trigger] sent[i],
            ),
        0 <= j < nodes.len(),
    ensures
        sent.filter(sent_into(receivers[j])).len() == connections.filter(
            leaves_from(node_id, port),
        ).filter(arrives_at(nodes[j].spec_id())).len(),
{
    lemma_delivery_reaches_targets(
        routes,
        senders,
        receivers,
        nodes,
        connections,
        node_id,
        port,
        data,
        sent,
    );
    let fc = connections.filter(leaves_from(node_id, port));
    let p = sent_into(receivers[j]);
    let q = arrives_at(nodes[j].spec_id());
    assert forall|i: int| 0 <= i < sent.len() implies p(#[trigger] sent[i]) == q(fc[i]) by {
        let c = fc[i];
        assert(fc.contains(c));
        connections.lemma_filter_contains_rev(leaves_from(node_id, port), c);
        let e = choose|e: int| 0 <= e < connections.len() && connections[e] == c;
        assert(contains_node(nodes, connections[e].spec_target_node()));
        let t = position_of(nodes, c.spec_target_node());
        assert(0 <= t < nodes.len() && nodes[t].spec_id() == c.spec_target_node());
        if t == j {
            assert(q(c));
        } else {
            assert(nodes[t].spec_id() != nodes[j].spec_id());
            assert(!q(c));
            assert(!p(sent[i]));
        }
    }
    lemma_filter_lengths_agree(sent, fc, p, q);
}

/// Along routes that follow a graph's connections, every send reaches the
/// channel of a node that some connection arrives at, and is an input
/// event: a node that no connection arrives at is sent nothing along any
/// route, whatever data goes along it, and in particular never a stop.
pub proof fn lemma_sends_reach_only_fed_nodes(
    routes: Seq<Route>,
    senders: Seq<Sender<Event>>,
    receivers: Seq<Receiver<Event>>,
    nodes: Seq<NodeDescriptor>,
    connections: Seq<Connection>,
    k: int,
    data: Seq<u8>,
    sent: Sent<Event>,
    j: int,
)
    requires
        routes_follow(routes, nodes, connections),
        ids_distinct(nodes),
        forall|c: int|
            0 <= c < connections.len() ==> contains_node(
                nodes,
                #[trigger] connections[c].spec_target_node(),
            ),
        receivers.len() == nodes.len(),
        senders.len() == receivers.len(),
        forall|i: int|
            0 <= i < senders.len() ==> sender_channel(#[trigger] senders[i]) == receiver_channel(
                receivers[i],
            ),
        forall|a: int, b: int|
            0 <= a < receivers.len() && 0 <= b < receivers.len() && a != b ==> receiver_channel(
                #[trigger] receivers[a],
            ) != receiver_channel(#[trigger] receivers[b]),
        0 <= k < routes.len(),
        delivers(senders, routes[k], data, sent),
        0 <= j < nodes.len(),
        forall|c: int|
            0 <= c < connections.len() ==> #[trigger] connections[c].spec_target_node()
                != nodes[j].spec_id(),
    ensures
        sender_channel(sent.spec_sender()) != receiver_channel(receivers[j]),
        sent.spec_value() is Input,
{
    assert(follows(nodes, routes[k], connections[k]));
    assert(contains_node(nodes, connections[k].spec_target_node()));
    let t = position_of(nodes, connections[k].spec_target_node());
    assert(0 <= t < nodes.len() && nodes[t].spec_id() == connections[k].spec_target_node());
    assert(t != j);
    assert(sender_channel(senders[t]) == receiver_channel(receivers[t]));
}

/// Routing table built from the dataflow graph.
///
/// Maps `(source_node, output_port)` to downstream delivery targets; the
/// sender of vertex `i` is the `i`-th sender.
pub struct RoutingTable {
    routes: Vec<Route>,
    senders: Vec<Sender<Event>>,
}

impl RoutingTable {
    /// The routes, in connection order.
    pub closed spec fn spec_routes(&self) -> Seq<Route> {
        self.routes@
    }

    /// The senders into each vertex's channel, in vertex order.
    pub closed spec fn spec_senders(&self) -> Seq<Sender<Event>> {
        self.senders@
    }

    /// Every route delivers to a vertex that has a sender.
    #[verifier::type_invariant]
    closed spec fn targets_in_range(&self) -> bool {
        forall|k: int| 0 <= k < self.routes@.len() ==> #[trigger] self.routes@[k].spec_target()
            < self.senders@.len()
    }

    /// The routes that carry output of `(source_node, source_port)`, in
    /// table order.
    pub fn routes_from(&self, source_node: NodeId, source_port: &OutputPort) -> (r: Vec<&Route>)
        ensures
            r@.map_values(|x: &Route| *x) == self.spec_routes().filter(
                carries(source_node, *source_port),
            ),
    {
        let mut r: Vec<&Route> = Vec::new();
        let n = self.routes.len();
        let ghost pred = carries(source_node, *source_port);
        for i in 0..n
            invariant
                n == self.routes@.len(),
                pred == carries(source_node, *source_port),
                r@.map_values(|x: &Route| *x) == self.routes@.take(i as int).filter(pred),
        {
            let route = &self.routes[i];
            proof {
                self.routes@.take(i as int).lemma_filter_push(*route, pred);
                assert(self.routes@.take(i + 1) == self.routes@.take(i as int).push(*route));
            }
            if route.source_node == source_node && route.source_port == *source_port {
                r.push(route);
                assert(r@.map_values(|x: &Route| *x) == self.routes@.take(i as int).filter(
                    pred,
                ).push(*route));
            }
        }
        assert(self.routes@.take(n as int) == self.routes@);
        r
    }

    /// Route output data to all downstream consumers.
    ///
    /// Finds all routes matching `(source_node, source_port)` and sends
    /// [`Event::Input`] with the route's target port and `data` to the
    /// sender of the route's target vertex, once per route, in table order;
    /// a send to a receiver that is gone is ignored.  Returns the receipts
    /// of those sends.
    pub fn deliver(&self, source_node: NodeId, source_port: &OutputPort, data: &[u8]) -> (sent:
        Vec<Sent<Event>>)
        ensures
            sent@.len() == self.spec_routes().filter(carries(source_node, *source_port)).len(),
            forall|i: int|
                0 <= i < sent@.len() ==> delivers(
                    self.spec_senders(),
                    self.spec_routes().filter(carries(source_node, *source_port))[i],
                    data@,
                    #[trigger] sent@[i],
                ),
    {
        let n = self.routes.len();
        let ghost pred = carries(source_node, *source_port);
        let mut sent: Vec<Sent<Event>> = Vec::new();
        for k in 0..n
            invariant
                n == self.routes@.len(),
                pred == carries(source_node, *source_port),
                sent@.len() == self.routes@.take(k as int).filter(pred).len(),
                forall|j: int|
                    0 <= j < sent@.len() ==> delivers(
                        self.senders@,
                        self.routes@.take(k as int).filter(pred)[j],
                        data@,
                        #[trigger] sent@[j],
                    ),
        {
            let route = &self.routes[k];
            let ghost before = self.routes@.take(k as int).filter(pred);
            proof {
                self.routes@.take(k as int).lemma_filter_push(*route, pred);
                assert(self.routes@.take(k + 1) == self.routes@.take(k as int).push(*route));
            }
            if route.source_node == source_node && route.source_port == *source_port {
                let receipt = send_along(self, k, data);
                sent.push(receipt);
                assert(self.routes@.take(k + 1).filter(pred) == before.push(*route));
                assert forall|j: int| 0 <= j < sent@.len() implies delivers(
                    self.senders@,
                    self.routes@.take(k + 1).filter(pred)[j],
                    data@,
                    #[trigger] sent@[j],
                ) by {
                    if j < before.len() {
                        assert(self.routes@.take(k + 1).filter(pred)[j] == before[j]);
                    }
                }
            }
        }
        assert(self.routes@.take(n as int) == self.routes@);
        sent
    }

    /// Route `k` and the sender of the vertex it delivers to.
    pub(crate) fn route_and_sender(&self, k: usize) -> (r: (&Route, &Sender<Event>))
        requires
            k < self.spec_routes().len(),
        ensures
            *r.0 == self.spec_routes()[k as int],
            r.0.spec_target() < self.spec_senders().len(),
            *r.1 == self.spec_senders()[r.0.spec_target() as int],
    {
        proof {
            use_type_invariant(self);
        }
        let route = &self.routes[k];
        assert(self.routes@[k as int].spec_target() < self.senders@.len());
        (route, &self.senders[route.target])
    }
}

impl Clone for RoutingTable {
    fn clone(&self) -> (r: Self)
        ensures
            r.spec_routes().len() == self.spec_routes().len(),
            forall|k: int|
                0 <= k < r.spec_routes().len() ==> same_route(
                    #[trigger] r.spec_routes()[k],
                    self.spec_routes()[k],
                ),
            r.spec_senders().len() == self.spec_senders().len(),
            forall|j: int|
                0 <= j < r.spec_senders().len() ==> sender_channel(#[trigger] r.spec_senders()[j])
                    == sender_channel(self.spec_senders()[j]),
    {
        proof {
            use_type_invariant(self);
        }
        let mut routes: Vec<Route> = Vec::new();
        let n = self.routes.len();
        for i in 0..n
            invariant
                n == self.routes@.len(),
                routes@.len() == i,
                forall|k: int| 0 <= k < i ==> same_route(#[trigger] routes@[k], self.routes@[k]),
        {
            routes.push(self.routes[i].clone());
        }
        let mut senders: Vec<Sender<Event>> = Vec::new();
        let m = self.senders.len();
        for j in 0..m
            invariant
                m == self.senders@.len(),
                senders@.len() == j,
                forall|k: int|
                    0 <= k < j ==> sender_channel(#[trigger] senders@[k]) == sender_channel(
                        self.senders@[k],
                    ),
        {
            senders.push(clone_event_sender(&self.senders[j]));
        }
        proof {
            assert forall|k: int| 0 <= k < routes@.len() implies #[trigger] routes@[k].spec_target()
                < senders@.len() by {
                assert(same_route(routes@[k], self.routes@[k]));
            }
        }
        RoutingTable { routes, senders }
    }
}

/// Result of wiring a dataflow graph: per-node receivers and routing table.
pub struct Wiring {
    /// Per-node event receivers, indexed by graph vertex order.
    pub receivers: Vec<(NodeId, Receiver<Event>)>,
    /// The routing table.
    pub routing_table: RoutingTable,
    /// Per-node stop senders, keyed by the node id's value.
    pub stop_senders: HashMap<u64, Sender<Event>>,
}

/// Create channels and build the routing table for a dataflow graph.
///
/// Node `i` gets the `i`-th receiver, and the `i`-th sender of the routing
/// table and its stop sender send into that receiver's channel; connection
/// `i` becomes route `i`, which delivers to the vertex of the connection's
/// target node.
#[verifier::spinoff_prover]
#[verifier::rlimit(30)]
pub fn wire(graph: &DataflowGraph) -> (r: Wiring)
    ensures
        r.receivers@.len() == graph.spec_nodes().len(),
        r.routing_table.spec_senders().len() == graph.spec_nodes().len(),
        forall|i: int|
            0 <= i < r.receivers@.len() ==> {
                &&& #[trigger] r.receivers@[i].0 == graph.spec_nodes()[i].spec_id()
                &&& sender_channel(r.routing_table.spec_senders()[i]) == receiver_channel(
                    r.receivers@[i].1,
                )
                &&& r.stop_senders@.contains_key(graph.spec_nodes()[i].spec_id()@)
                &&& sender_channel(r.stop_senders@[graph.spec_nodes()[i].spec_id()@])
                    == receiver_channel(r.receivers@[i].1)
            },
        forall|a: int, b: int|
            0 <= a < r.receivers@.len() && 0 <= b < r.receivers@.len() && a != b
                ==> receiver_channel(#[trigger] r.receivers@[a].1) != receiver_channel(
                #[trigger] r.receivers@[b].1,
            ),
        routes_follow(
            r.routing_table.spec_routes(),
            graph.spec_nodes(),
            graph.spec_connections(),
        ),
        forall|k: u64|
            #[trigger] r.stop_senders@.contains_key(k) <==> exists|i: int|
                0 <= i < graph.spec_nodes().len() && graph.spec_nodes()[i].spec_id()@ == k,
{
    proof {
        use_type_invariant(graph);
    }
    let nodes = graph.nodes();
    let n = nodes.len();
    let mut senders: Vec<Sender<Event>> = Vec::new();
    let mut receivers: Vec<(NodeId, Receiver<Event>)> = Vec::new();
    let mut stop_senders: HashMap<u64, Sender<Event>> = HashMap::new();
    for i in 0..n
        invariant
            n == nodes@.len(),
            nodes@ == graph.spec_nodes(),
            ids_distinct(nodes@),
            senders@.len() == i,
            receivers@.len() == i,
            forall|a: int, b: int|
                0 <= a < i && 0 <= b < i && a != b ==> receiver_channel(#[trigger] receivers@[a].1)
                    != receiver_channel(#[trigger] receivers@[b].1),
            forall|j: int|
                0 <= j < i ==> {
                    &&& #[trigger] receivers@[j].0 == nodes@[j].spec_id()
                    &&& sender_channel(senders@[j]) == receiver_channel(receivers@[j].1)
                    &&& stop_senders@.contains_key(nodes@[j].spec_id()@)
                    &&& sender_channel(stop_senders@[nodes@[j].spec_id()@]) == receiver_channel(
                        receivers@[j].1,
                    )
                },
            forall|k: u64|
                #[trigger] stop_senders@.contains_key(k) <==> exists|j: int|
                    0 <= j < i && nodes@[j].spec_id()@ == k,
    {
        let (tx, rx) = open_event_channel(&receivers);
        let id = nodes[i].id();
        let ghost before = stop_senders@;
        let ghost before_receivers = receivers@;
        let ghost before_senders = senders@;
        let stop_tx = clone_event_sender(&tx);
        assert(sender_channel(stop_tx) == receiver_channel(rx));
        stop_senders.insert(id.value(), stop_tx);
        proof {
            assert forall|k: u64|
                #[trigger] stop_senders@.contains_key(k) <==> exists|j: int|
                    0 <= j < i + 1 && nodes@[j].spec_id()@ == k by {
                if k == id@ {
                    assert(nodes@[i as int].spec_id()@ == k);
                }
                if exists|j: int| 0 <= j < i + 1 && nodes@[j].spec_id()@ == k {
                    let j = choose|j: int| 0 <= j < i + 1 && nodes@[j].spec_id()@ == k;
                    if j < i {
                        assert(before.contains_key(k));
                    }
                }
            }
            assert forall|j: int| 0 <= j < i implies nodes@[j].spec_id()@ != id@ by {
                NodeId::lemma_view_injective(nodes@[j].spec_id(), nodes@[i as int].spec_id());
            }
        }
        senders.push(tx);
        receivers.push((id, rx));
        proof {
            assert forall|j: int|
                0 <= j < i + 1 implies {
                    &&& #[trigger] receivers@[j].0 == nodes@[j].spec_id()
                    &&& sender_channel(senders@[j]) == receiver_channel(receivers@[j].1)
                    &&& stop_senders@.contains_key(nodes@[j].spec_id()@)
                    &&& sender_channel(stop_senders@[nodes@[j].spec_id()@]) == receiver_channel(
                        receivers@[j].1,
                    )
                } by {
                if j < i {
                    assert(before_receivers[j].0 == nodes@[j].spec_id());
                    assert(receivers@[j] == before_receivers[j]);
                    assert(senders@[j] == before_senders[j]);
                    assert(nodes@[j].spec_id()@ != id@);
                    assert(before.contains_key(nodes@[j].spec_id()@));
                } else {
                    assert(receivers@[j] == (id, rx));
                    assert(senders@[j] == tx);
                    assert(stop_senders@[id@] == stop_tx);
                }
            }
        }
    }
    let connections = graph.connections();
    let m = connections.len();
    let mut routes: Vec<Route> = Vec::new();
    for i in 0..m
        invariant
            n == graph.spec_nodes().len(),
            senders@.len() == n,
            m == connections@.len(),
            connections@ == graph.spec_connections(),
            graph.well_formed(),
            routes@.len() == i,
            forall|j: int|
                0 <= j < i ==> follows(graph.spec_nodes(), #[trigger] routes@[j], connections@[j]),
            forall|j: int| 0 <= j < i ==> #[trigger] routes@[j].spec_target() < n,
    {
        let c = &connections[i];
        assert(!crate::graph::is_dangling(graph.spec_nodes(), connections@[i as int]));
        match graph.index_of(c.target_node()) {
            Some(j) => {
                routes.push(
                    Route {
                        source_node: c.source_node(),
                        source_port: c.source_port().clone(),
                        target_port: c.target_port().clone(),
                        target: j,
                    },
                );
            },
            None => {},
        }
    }
    Wiring { receivers, routing_table: RoutingTable { routes, senders }, stop_senders }
}

// ---------------------------------------------------------------------------
// Coordinator
// ---------------------------------------------------------------------------

/// Node `id` is owed a stop request once `done` holds its producers: it has
/// at least one upstream producer, all of them are done, and it is not done
/// itself.
pub open spec fn should_stop(
    connections: Seq<Connection>,
    done: Set<NodeId>,
    id: NodeId,
) -> bool {
    &&& exists|u: NodeId| is_upstream_of(connections, u, id)
    &&& forall|u: NodeId| is_upstream_of(connections, u, id) ==> done.contains(u)
    &&& !done.contains(id)
}

/// The nodes of `graph`, in vertex order, that are owed a stop request
/// once the nodes in `done` have finished.
pub open spec fn stop_targets(graph: DataflowGraph, done: Set<NodeId>) -> Seq<NodeId> {
    graph.spec_nodes().map_values(|n: NodeDescriptor| n.spec_id()).filter(
        |id: NodeId| should_stop(graph.spec_connections(), done, id),
    )
}

/// A node is owed a stop request exactly when it is a node of the graph,
/// it has at least one upstream producer, all of its producers are done,
/// and it is not done itself.  In particular a done node, or a node
/// without producers, is never sent a stop request.
pub proof fn lemma_stop_targets_members(graph: DataflowGraph, done: Set<NodeId>, id: NodeId)
    ensures
        stop_targets(graph, done).contains(id) <==> contains_node(graph.spec_nodes(), id)
            && should_stop(graph.spec_connections(), done, id),
{
    let ids = graph.spec_nodes().map_values(|n: NodeDescriptor| n.spec_id());
    let pred = |x: NodeId| should_stop(graph.spec_connections(), done, x);
    let f = ids.filter(pred);
    if f.contains(id) {
        let k = choose|k: int| 0 <= k < f.len() && f[k] == id;
        ids.lemma_filter_pred(pred, k);
        ids.lemma_filter_contains_rev(pred, id);
        let j = choose|j: int| 0 <= j < ids.len() && ids[j] == id;
        assert(graph.spec_nodes()[j].spec_id() == id);
    }
    if contains_node(graph.spec_nodes(), id) && should_stop(graph.spec_connections(), done, id) {
        let j = choose|j: int|
            0 <= j < graph.spec_nodes().len() && graph.spec_nodes()[j].spec_id() == id;
        assert(ids[j] == id);
        ids.lemma_filter_contains(pred, j);
    }
}

/// Once a node is owed a stop request, it stays owed one, however many
/// more nodes signal done, until it signals done itself.
pub proof fn lemma_stop_persists(
    graph: DataflowGraph,
    done: Set<NodeId>,
    later: Set<NodeId>,
    id: NodeId,
)
    requires
        done.subset_of(later),
        stop_targets(graph, done).contains(id),
        !later.contains(id),
    ensures
        stop_targets(graph, later).contains(id),
{
    lemma_stop_targets_members(graph, done, id);
    lemma_stop_targets_members(graph, later, id);
}

/// What the coordinator decides on one done signal.
pub struct CoordinatorStep {
    /// The nodes to send [`Event::Stop`] to, in vertex order.
    pub stops: Vec<NodeId>,
    /// Whether every node has now signalled done, which ends the fold.
    pub finished: bool,
}

/// The state of the coordinator's fold: the nodes that signalled done.
pub struct Coordinator {
    done: Vec<NodeId>,
    node_count: usize,
}

impl Coordinator {
    /// The nodes that signalled done so far.
    pub closed spec fn done_set(&self) -> Set<NodeId> {
        self.done@.to_set()
    }

    /// The number of nodes whose done signals end the fold.
    pub closed spec fn spec_node_count(&self) -> usize {
        self.node_count
    }

    /// The done nodes are recorded once each.
    #[verifier::type_invariant]
    closed spec fn well_formed(&self) -> bool {
        self.done@.no_duplicates()
    }

    /// A coordinator for `node_count` nodes, none of them done.
    pub fn new(node_count: usize) -> (r: Self)
        ensures
            r.done_set() == Set::<NodeId>::empty(),
            r.spec_node_count() == node_count,
    {
        let r = Coordinator { done: Vec::new(), node_count };
        assert(r.done@.to_set() =~= Set::<NodeId>::empty());
        r
    }

    /// Whether `node_id` has signalled done.
    pub fn is_done(&self, node_id: NodeId) -> (r: bool)
        ensures
            r == self.done_set().contains(node_id),
    {
        let r = contains_id(&self.done, node_id);
        proof {
            if r {
                let k = choose|k: int| 0 <= k < self.done@.len() && self.done@[k] == node_id;
                assert(self.done@.to_set().contains(self.done@[k]));
            }
        }
        r
    }

    /// Record that `node_id` is done, then report which nodes are owed
    /// [`Event::Stop`] and whether all nodes have now finished.
    pub fn on_done(&mut self, graph: &DataflowGraph, node_id: NodeId) -> (r: CoordinatorStep)
        ensures
            final(self).done_set() == old(self).done_set().insert(node_id),
            final(self).spec_node_count() == old(self).spec_node_count(),
            r.stops@ == stop_targets(*graph, final(self).done_set()),
            r.finished == (final(self).done_set().len() >= final(self).spec_node_count()),
    {
        proof {
            use_type_invariant(&*self);
        }
        if !self.is_done(node_id) {
            let mut done: Vec<NodeId> = Vec::new();
            std::mem::swap(&mut done, &mut self.done);
            done.push(node_id);
            proof {
                assert(done@ == old(self).done@.push(node_id));
                old(self).done@.lemma_push_to_set_commute(node_id);
            }
            self.done = done;
        } else {
            assert(self.done@.to_set() =~= old(self).done@.to_set().insert(node_id));
        }
        let stops = self.stop_targets_now(graph);
        let count = self.done.len();
        proof {
            self.done@.unique_seq_to_set();
        }
        CoordinatorStep { stops, finished: count >= self.node_count }
    }

    /// Whether every upstream producer in `upstream` is done.
    fn all_done(&self, upstream: &Vec<NodeId>) -> (r: bool)
        ensures
            r == (forall|u: NodeId| upstream@.contains(u) ==> self.done_set().contains(u)),
    {
        let n = upstream.len();
        for i in 0..n
            invariant
                n == upstream@.len(),
                forall|j: int| 0 <= j < i ==> self.done_set().contains(#[trigger] upstream@[j]),
        {
            if !self.is_done(upstream[i]) {
                assert(upstream@.contains(upstream@[i as int]));
                return false;
            }
        }
        assert forall|u: NodeId| upstream@.contains(u) implies self.done_set().contains(u) by {
            let k = choose|k: int| 0 <= k < upstream@.len() && upstream@[k] == u;
            assert(self.done_set().contains(upstream@[k]));
        }
        true
    }

    /// The nodes of `graph` that are owed a stop request now.
    fn stop_targets_now(&self, graph: &DataflowGraph) -> (r: Vec<NodeId>)
        ensures
            r@ == stop_targets(*graph, self.done_set()),
    {
        let nodes = graph.nodes();
        let n = nodes.len();
        let ghost ids = graph.spec_nodes().map_values(
            |d: NodeDescriptor| d.spec_id(),
        );
        let ghost pred = |id: NodeId| should_stop(graph.spec_connections(), self.done_set(), id);
        let mut r: Vec<NodeId> = Vec::new();
        for i in 0..n
            invariant
                n == nodes@.len(),
                nodes@ == graph.spec_nodes(),
                ids == graph.spec_nodes().map_values(
                    |d: NodeDescriptor| d.spec_id(),
                ),
                pred == (|id: NodeId| should_stop(graph.spec_connections(), self.done_set(), id)),
                r@ == ids.take(i as int).filter(pred),
        {
            let id = nodes[i].id();
            let upstream = graph.upstream_nodes(id);
            let has_upstream = upstream.len() > 0;
            let upstream_done = self.all_done(&upstream);
            let stopped = self.is_done(id);
            proof {
                ids.take(i as int).lemma_filter_push(id, pred);
                assert(ids.take(i + 1) == ids.take(i as int).push(id));
                if has_upstream {
                    assert(upstream@.contains(upstream@[0]));
                }
                if exists|u: NodeId| is_upstream_of(graph.spec_connections(), u, id) {
                    let u = choose|u: NodeId| is_upstream_of(graph.spec_connections(), u, id);
                    assert(upstream@.contains(u));
                }
                assert(pred(id) == (has_upstream && upstream_done && !stopped));
            }
            if has_upstream && upstream_done && !stopped {
                r.push(id);
            }
        }
        assert(ids.take(n as int) == ids);
        r
    }
}

} // verus!
