//! Dataflow graph: nodes, ports, connections, and their validation.
//!
//! A [`DataflowGraph`] is a directed graph whose vertices are processing
//! nodes and whose edges are data connections from an output port of one
//! node to an input port of another.  Graphs are assembled with a
//! [`DataflowGraphBuilder`], which refuses duplicate node identifiers and
//! dangling connections.

use std::collections::HashMap;

use comp_cat_rs::collapse::free_category::{Edge, FreeCategoryError, Vertex};
use vstd::prelude::*;

use crate::error::Error;
use crate::text::{decimal, decimal_string, decimal_string_usize};

verus! {

broadcast use vstd::std_specs::hash::group_hash_axioms;

// ---------------------------------------------------------------------------
// Newtypes
// ---------------------------------------------------------------------------

/// Unique identifier for a processing node in the dataflow.
#[derive(Debug, Clone, Copy, PartialEq, Eq, Structural, Hash)]
pub struct NodeId(u64);

impl View for NodeId {
    type V = u64;

    closed spec fn view(&self) -> u64 {
        self.0
    }
}

impl NodeId {
    /// Create a new node identifier.
    pub fn new(id: u64) -> (r: Self)
        ensures
            r@ == id,
    {
        NodeId(id)
    }

    /// The underlying numeric value.
    pub fn value(self) -> (r: u64)
        ensures
            r == self@,
    {
        self.0
    }

    /// The identifier as text: `NodeId(` and its decimal value and `)`.
    pub fn to_string(&self) -> (r: String)
        ensures
            r@ == node_id_text(*self),
    {
        String::from_str("NodeId(").concat(decimal_string(self.0).as_str()).concat(")")
    }

    /// Two identifiers are equal exactly when their numeric values are.
    pub proof fn lemma_view_injective(a: NodeId, b: NodeId)
        ensures
            (a@ == b@) == (a == b),
    {
    }
}

/// How a node identifier is written: `NodeId(` and its decimal value and `)`.
pub open spec fn node_id_text(id: NodeId) -> Seq<char> {
    "NodeId("@ + decimal(id@ as nat) + ")"@
}

/// A named output port on a node.
#[derive(Debug, Eq, Hash)]
pub struct OutputPort(String);

impl View for OutputPort {
    type V = Seq<char>;

    closed spec fn view(&self) -> Seq<char> {
        self.0@
    }
}

impl OutputPort {
    /// Create a new output port.
    pub fn new(name: String) -> (r: Self)
        ensures
            r@ == name@,
    {
        OutputPort(name)
    }

    /// The port name.
    pub fn name(&self) -> (r: &str)
        ensures
            r@ == self@,
    {
        self.0.as_str()
    }
}

impl Clone for OutputPort {
    fn clone(&self) -> (r: Self)
        ensures
            r@ == self@,
    {
        OutputPort(self.0.clone())
    }
}

impl PartialEq for OutputPort {
    fn eq(&self, other: &Self) -> (r: bool) {
        self.0 == other.0
    }
}

impl vstd::std_specs::cmp::PartialEqSpecImpl for OutputPort {
    open spec fn obeys_eq_spec() -> bool {
        true
    }

    open spec fn eq_spec(&self, other: &Self) -> bool {
        self@ == other@
    }
}

/// A named input port on a node.
#[derive(Debug, Eq, Hash)]
pub struct InputPort(String);

impl View for InputPort {
    type V = Seq<char>;

    closed spec fn view(&self) -> Seq<char> {
        self.0@
    }
}

impl InputPort {
    /// Create a new input port.
    pub fn new(name: String) -> (r: Self)
        ensures
            r@ == name@,
    {
        InputPort(name)
    }

    /// The port name.
    pub fn name(&self) -> (r: &str)
        ensures
            r@ == self@,
    {
        self.0.as_str()
    }
}

impl Clone for InputPort {
    fn clone(&self) -> (r: Self)
        ensures
            r@ == self@,
    {
        InputPort(self.0.clone())
    }
}

impl PartialEq for InputPort {
    fn eq(&self, other: &Self) -> (r: bool) {
        self.0 == other.0
    }
}

impl vstd::std_specs::cmp::PartialEqSpecImpl for InputPort {
    open spec fn obeys_eq_spec() -> bool {
        true
    }

    open spec fn eq_spec(&self, other: &Self) -> bool {
        self@ == other@
    }
}

// ---------------------------------------------------------------------------
// Descriptors
// ---------------------------------------------------------------------------

/// Describes a processing node in the dataflow graph.
pub struct NodeDescriptor {
    id: NodeId,
    name: String,
    inputs: Vec<InputPort>,
    outputs: Vec<OutputPort>,
}

impl NodeDescriptor {
    /// The identifier the descriptor was made with.
    pub closed spec fn spec_id(&self) -> NodeId {
        self.id
    }

    /// The name the descriptor was made with.
    pub closed spec fn spec_name(&self) -> Seq<char> {
        self.name@
    }

    /// The declared input ports.
    pub closed spec fn spec_inputs(&self) -> Seq<InputPort> {
        self.inputs@
    }

    /// The declared output ports.
    pub closed spec fn spec_outputs(&self) -> Seq<OutputPort> {
        self.outputs@
    }

    /// Create a new node descriptor.
    pub fn new(id: NodeId, name: String, inputs: Vec<InputPort>, outputs: Vec<OutputPort>) -> (r:
        Self)
        ensures
            r.spec_id() == id,
            r.spec_name() == name@,
            r.spec_inputs() == inputs@,
            r.spec_outputs() == outputs@,
    {
        NodeDescriptor { id, name, inputs, outputs }
    }

    /// The node's identifier.
    pub fn id(&self) -> (r: NodeId)
        ensures
            r == self.spec_id(),
    {
        self.id
    }

    /// The node's human-readable name.
    pub fn name(&self) -> (r: &str)
        ensures
            r@ == self.spec_name(),
    {
        self.name.as_str()
    }

    /// The node's declared input ports.
    pub fn inputs(&self) -> (r: &[InputPort])
        ensures
            r@ == self.spec_inputs(),
    {
        self.inputs.as_slice()
    }

    /// The node's declared output ports.
    pub fn outputs(&self) -> (r: &[OutputPort])
        ensures
            r@ == self.spec_outputs(),
    {
        self.outputs.as_slice()
    }
}

/// A connection from an output port on one node to an input port on another.
pub struct Connection {
    source_node: NodeId,
    source_port: OutputPort,
    target_node: NodeId,
    target_port: InputPort,
}

impl Connection {
    /// The node the connection leaves from.
    pub closed spec fn spec_source_node(&self) -> NodeId {
        self.source_node
    }

    /// The output port the connection leaves from.
    pub closed spec fn spec_source_port(&self) -> OutputPort {
        self.source_port
    }

    /// The node the connection arrives at.
    pub closed spec fn spec_target_node(&self) -> NodeId {
        self.target_node
    }

    /// The input port the connection arrives at.
    pub closed spec fn spec_target_port(&self) -> InputPort {
        self.target_port
    }

    /// Create a new connection.
    pub fn new(
        source_node: NodeId,
        source_port: OutputPort,
        target_node: NodeId,
        target_port: InputPort,
    ) -> (r: Self)
        ensures
            r.spec_source_node() == source_node,
            r.spec_source_port() == source_port,
            r.spec_target_node() == target_node,
            r.spec_target_port() == target_port,
    {
        Connection { source_node, source_port, target_node, target_port }
    }

    /// The source node.
    pub fn source_node(&self) -> (r: NodeId)
        ensures
            r == self.spec_source_node(),
    {
        self.source_node
    }

    /// The source output port.
    pub fn source_port(&self) -> (r: &OutputPort)
        ensures
            *r == self.spec_source_port(),
    {
        &self.source_port
    }

    /// The target node.
    pub fn target_node(&self) -> (r: NodeId)
        ensures
            r == self.spec_target_node(),
    {
        self.target_node
    }

    /// The target input port.
    pub fn target_port(&self) -> (r: &InputPort)
        ensures
            *r == self.spec_target_port(),
    {
        &self.target_port
    }
}

// ---------------------------------------------------------------------------
// Graph-level specifications
// ---------------------------------------------------------------------------

/// No two nodes share an identifier.
pub open spec fn ids_distinct(nodes: Seq<NodeDescriptor>) -> bool {
    forall|i: int, j: int|
        0 <= i < nodes.len() && 0 <= j < nodes.len() && i != j ==> nodes[i].spec_id()
            != nodes[j].spec_id()
}

/// Some node carries the identifier `id`.
pub open spec fn contains_node(nodes: Seq<NodeDescriptor>, id: NodeId) -> bool {
    exists|i: int| 0 <= i < nodes.len() && nodes[i].spec_id() == id
}

/// The position of the node with identifier `id` (meaningful when it exists).
pub open spec fn position_of(nodes: Seq<NodeDescriptor>, id: NodeId) -> int {
    choose|i: int| 0 <= i < nodes.len() && nodes[i].spec_id() == id
}

/// The connection names a node that is not in `nodes`, at either end.
pub open spec fn is_dangling(nodes: Seq<NodeDescriptor>, c: Connection) -> bool {
    !contains_node(nodes, c.spec_source_node()) || !contains_node(nodes, c.spec_target_node())
}

/// The missing node that a dangling connection is reported by: its source
/// node when that is missing, otherwise its target node.
pub open spec fn dangling_endpoint(nodes: Seq<NodeDescriptor>, c: Connection) -> NodeId {
    if !contains_node(nodes, c.spec_source_node()) {
        c.spec_source_node()
    } else {
        c.spec_target_node()
    }
}

/// Every connection joins two nodes of `nodes`.
pub open spec fn all_connected(nodes: Seq<NodeDescriptor>, connections: Seq<Connection>) -> bool {
    forall|i: int| 0 <= i < connections.len() ==> !is_dangling(nodes, #[trigger] connections[i])
}

/// The connections leave from `port` of node `node_id`.
pub open spec fn leaves_from(node_id: NodeId, port: OutputPort) -> spec_fn(Connection) -> bool {
    |c: Connection| c.spec_source_node() == node_id && c.spec_source_port()@ == port@
}

/// `id` is the source node of some connection arriving at `node_id`.
pub open spec fn is_upstream_of(connections: Seq<Connection>, id: NodeId, node_id: NodeId) -> bool {
    exists|i: int|
        0 <= i < connections.len() && connections[i].spec_target_node() == node_id
            && connections[i].spec_source_node() == id
}

/// In a list without duplicates, the node at position `i` is the one that
/// `position_of` designates for its identifier.
pub proof fn lemma_position_of(nodes: Seq<NodeDescriptor>, i: int)
    requires
        ids_distinct(nodes),
        0 <= i < nodes.len(),
    ensures
        position_of(nodes, nodes[i].spec_id()) == i,
{
    let j = position_of(nodes, nodes[i].spec_id());
    assert(0 <= j < nodes.len() && nodes[j].spec_id() == nodes[i].spec_id());
}

// ---------------------------------------------------------------------------
// Vertices and edges of the free category
// ---------------------------------------------------------------------------

/// `comp_cat_rs`'s vertex identifier, a newtype over `usize`.
#[verifier::external_type_specification]
#[verifier::external_body]
pub struct ExVertex(Vertex);

/// `comp_cat_rs`'s edge identifier, a newtype over `usize`.
#[verifier::external_type_specification]
#[verifier::external_body]
pub struct ExEdge(Edge);

/// What `Vertex::index` returns for a vertex.
pub uninterp spec fn vertex_index(vertex: Vertex) -> usize;

/// What `Edge::index` returns for an edge.
pub uninterp spec fn edge_index(edge: Edge) -> usize;

/// The value `FreeCategoryError::EdgeOutOfBounds { edge, count }`.
pub uninterp spec fn edge_out_of_bounds(edge: Edge, count: usize) -> FreeCategoryError;

/// Calls `Vertex::new`.  Its source stores `index` and `Vertex::index`
/// hands it back, which is what the contract states.
#[verifier::external_body]
fn make_vertex(index: usize) -> (r: Vertex)
    ensures
        vertex_index(r) == index,
{
    Vertex::new(index)
}

/// Calls `Edge::index`, which returns the index the edge was made with.
#[verifier::external_body]
fn index_of_edge(edge: Edge) -> (r: usize)
    ensures
        r == edge_index(edge),
{
    edge.index()
}

/// Calls `Vertex::index`, which returns the index the vertex was made with.
#[verifier::external_body]
fn index_of_vertex(vertex: Vertex) -> (r: usize)
    ensures
        r == vertex_index(vertex),
{
    vertex.index()
}

/// Builds `FreeCategoryError::EdgeOutOfBounds { edge, count }`.
#[verifier::external_body]
fn out_of_bounds_error(edge: Edge, count: usize) -> (r: FreeCategoryError)
    ensures
        r == edge_out_of_bounds(edge, count),
{
    FreeCategoryError::EdgeOutOfBounds { edge, count }
}

// ---------------------------------------------------------------------------
// DataflowGraph
// ---------------------------------------------------------------------------

/// An immutable, validated dataflow graph.
///
/// Constructed via [`DataflowGraphBuilder`].  Vertices are the nodes, in
/// the order they were added; edges are the connections, in the order they
/// were added.
pub struct DataflowGraph {
    nodes: Vec<NodeDescriptor>,
    connections: Vec<Connection>,
    node_index: HashMap<u64, usize>,
}

impl DataflowGraph {
    /// The nodes, in vertex order.
    pub closed spec fn spec_nodes(&self) -> Seq<NodeDescriptor> {
        self.nodes@
    }

    /// The connections, in edge order.
    pub closed spec fn spec_connections(&self) -> Seq<Connection> {
        self.connections@
    }

    /// The identifier index maps each node's identifier to its vertex index.
    pub closed spec fn index_consistent(&self) -> bool {
        &&& forall|i: int|
            0 <= i < self.nodes@.len() ==> #[trigger] self.node_index@.contains_key(
                self.nodes@[i].spec_id()@,
            ) && self.node_index@[self.nodes@[i].spec_id()@] == i
        &&& forall|k: u64| #[trigger]
            self.node_index@.contains_key(k) ==> self.node_index@[k] < self.nodes@.len()
                && self.nodes@[self.node_index@[k] as int].spec_id()@ == k
    }

    /// Distinct identifiers, no dangling connection, and a consistent index:
    /// the invariant of every graph, which `build` establishes.
    #[verifier::type_invariant]
    pub open spec fn well_formed(&self) -> bool {
        &&& ids_distinct(self.spec_nodes())
        &&& all_connected(self.spec_nodes(), self.spec_connections())
        &&& self.index_consistent()
    }

    /// The nodes in this graph.
    pub fn nodes(&self) -> (r: &[NodeDescriptor])
        ensures
            r@ == self.spec_nodes(),
    {
        self.nodes.as_slice()
    }

    /// The connections in this graph.
    pub fn connections(&self) -> (r: &[Connection])
        ensures
            r@ == self.spec_connections(),
    {
        self.connections.as_slice()
    }

    /// The number of vertices (nodes).
    pub fn vertex_count(&self) -> (r: usize)
        ensures
            r == self.spec_nodes().len(),
    {
        self.nodes.len()
    }

    /// The number of edges (connections).
    pub fn edge_count(&self) -> (r: usize)
        ensures
            r == self.spec_connections().len(),
    {
        self.connections.len()
    }

    /// The vertex index of the node with identifier `node_id`, if any.
    pub fn index_of(&self, node_id: NodeId) -> (r: Option<usize>)
        ensures
            r is Some <==> contains_node(self.spec_nodes(), node_id),
            r matches Some(i) ==> i == position_of(self.spec_nodes(), node_id)
                && self.spec_nodes()[i as int].spec_id() == node_id,
    {
        proof {
            use_type_invariant(self);
        }
        let key = node_id.value();
        match self.node_index.get(&key) {
            Some(i) => {
                let i = *i;
                proof {
                    assert(self.node_index@.contains_key(key));
                    lemma_position_of(self.nodes@, i as int);
                    NodeId::lemma_view_injective(self.nodes@[i as int].spec_id(), node_id);
                }
                Some(i)
            },
            None => {
                proof {
                    if contains_node(self.nodes@, node_id) {
                        let j = choose|j: int|
                            0 <= j < self.nodes@.len() && self.nodes@[j].spec_id() == node_id;
                        assert(self.node_index@.contains_key(self.nodes@[j].spec_id()@));
                    }
                }
                None
            },
        }
    }

    /// Look up the [`NodeDescriptor`] for a [`NodeId`].
    ///
    /// Returns [`Error::NodeNotFound`] if no node with that id exists.
    pub fn node_for(&self, node_id: NodeId) -> (r: Result<&NodeDescriptor, Error>)
        ensures
            r is Ok <==> contains_node(self.spec_nodes(), node_id),
            r matches Ok(n) ==> *n == self.spec_nodes()[position_of(self.spec_nodes(), node_id)],
            r matches Ok(n) ==> n.spec_id() == node_id,
            r matches Err(e) ==> e == (Error::NodeNotFound { node_id }),
    {
        proof {
            use_type_invariant(self);
        }
        match self.index_of(node_id) {
            Some(i) => Ok(&self.nodes[i]),
            None => Err(Error::NodeNotFound { node_id }),
        }
    }

    /// The vertex index of the source node of connection `edge`, or `None`
    /// when there is no connection with that index.
    pub fn source_index(&self, edge: usize) -> (r: Option<usize>)
        ensures
            r is Some <==> edge < self.spec_connections().len(),
            r matches Some(i) ==> i == position_of(
                self.spec_nodes(),
                self.spec_connections()[edge as int].spec_source_node(),
            ),
    {
        proof {
            use_type_invariant(self);
        }
        if edge < self.connections.len() {
            let c = &self.connections[edge];
            assert(!is_dangling(self.nodes@, self.connections@[edge as int]));
            self.index_of(c.source_node)
        } else {
            None
        }
    }

    /// The vertex index of the target node of connection `edge`, or `None`
    /// when there is no connection with that index.
    pub fn target_index(&self, edge: usize) -> (r: Option<usize>)
        ensures
            r is Some <==> edge < self.spec_connections().len(),
            r matches Some(i) ==> i == position_of(
                self.spec_nodes(),
                self.spec_connections()[edge as int].spec_target_node(),
            ),
    {
        proof {
            use_type_invariant(self);
        }
        if edge < self.connections.len() {
            let c = &self.connections[edge];
            assert(!is_dangling(self.nodes@, self.connections@[edge as int]));
            self.index_of(c.target_node)
        } else {
            None
        }
    }

    /// Look up the vertex for a [`NodeId`].
    ///
    /// Returns [`Error::NodeNotFound`] if no node with that id exists.
    pub fn vertex_for(&self, node_id: NodeId) -> (r: Result<Vertex, Error>)
        ensures
            r is Ok <==> contains_node(self.spec_nodes(), node_id),
            r matches Ok(v) ==> vertex_index(v) == position_of(self.spec_nodes(), node_id),
            r matches Err(e) ==> e == (Error::NodeNotFound { node_id }),
    {
        proof {
            use_type_invariant(self);
        }
        match self.index_of(node_id) {
            Some(i) => Ok(make_vertex(i)),
            None => Err(Error::NodeNotFound { node_id }),
        }
    }

    /// The source vertex of an edge.
    ///
    /// Returns `FreeCategoryError::EdgeOutOfBounds` if the edge index is out
    /// of range.
    pub fn source(&self, edge: Edge) -> (r: Result<Vertex, FreeCategoryError>)
        ensures
            r is Ok <==> edge_index(edge) < self.spec_connections().len(),
            r matches Ok(v) ==> vertex_index(v) == position_of(
                self.spec_nodes(),
                self.spec_connections()[edge_index(edge) as int].spec_source_node(),
            ),
            r matches Err(e) ==> e == edge_out_of_bounds(
                edge,
                self.spec_connections().len() as usize,
            ),
    {
        proof {
            use_type_invariant(self);
        }
        match self.source_index(index_of_edge(edge)) {
            Some(i) => Ok(make_vertex(i)),
            None => Err(out_of_bounds_error(edge, self.connections.len())),
        }
    }

    /// The target vertex of an edge.
    ///
    /// Returns `FreeCategoryError::EdgeOutOfBounds` if the edge index is out
    /// of range.
    pub fn target(&self, edge: Edge) -> (r: Result<Vertex, FreeCategoryError>)
        ensures
            r is Ok <==> edge_index(edge) < self.spec_connections().len(),
            r matches Ok(v) ==> vertex_index(v) == position_of(
                self.spec_nodes(),
                self.spec_connections()[edge_index(edge) as int].spec_target_node(),
            ),
            r matches Err(e) ==> e == edge_out_of_bounds(
                edge,
                self.spec_connections().len() as usize,
            ),
    {
        proof {
            use_type_invariant(self);
        }
        match self.target_index(index_of_edge(edge)) {
            Some(i) => Ok(make_vertex(i)),
            None => Err(out_of_bounds_error(edge, self.connections.len())),
        }
    }

    /// All connections originating from `(node_id, port)`, in edge order.
    pub fn outgoing(&self, node_id: NodeId, port: &OutputPort) -> (r: Vec<&Connection>)
        ensures
            r@.map_values(|c: &Connection| *c) == self.spec_connections().filter(
                leaves_from(node_id, *port),
            ),
    {
        let mut r: Vec<&Connection> = Vec::new();
        let n = self.connections.len();
        let ghost pred = leaves_from(node_id, *port);
        for i in 0..n
            invariant
                n == self.connections@.len(),
                pred == leaves_from(node_id, *port),
                r@.map_values(|c: &Connection| *c) == self.connections@.take(i as int).filter(pred),
        {
            let c = &self.connections[i];
            proof {
                self.connections@.take(i as int).lemma_filter_push(*c, pred);
                assert(self.connections@.take(i + 1) == self.connections@.take(i as int).push(*c));
            }
            if c.source_node == node_id && c.source_port == *port {
                r.push(c);
                assert(r@.map_values(|c: &Connection| *c) == self.connections@.take(
                    i as int,
                ).filter(pred).push(*c));
            }
        }
        assert(self.connections@.take(n as int) == self.connections@);
        r
    }

    /// All distinct upstream producer node ids for a given node.
    ///
    /// A producer is any node that has a connection targeting this node.
    pub fn upstream_nodes(&self, node_id: NodeId) -> (r: Vec<NodeId>)
        ensures
            r@.no_duplicates(),
            forall|id: NodeId| r@.contains(id) <==> is_upstream_of(self.spec_connections(), id, node_id),
    {
        let mut r: Vec<NodeId> = Vec::new();
        let n = self.connections.len();
        for i in 0..n
            invariant
                n == self.connections@.len(),
                r@.no_duplicates(),
                forall|id: NodeId|
                    r@.contains(id) <==> is_upstream_of(self.connections@.take(i as int), id, node_id),
        {
            let c = &self.connections[i];
            let ghost before = r@;
            let already = contains_id(&r, c.source_node);
            let pushed = c.target_node == node_id && !already;
            if pushed {
                r.push(c.source_node);
            }
            proof {
                assert forall|id: NodeId|
                    r@.contains(id) <==> (before.contains(id) || (pushed && id == c.source_node)) by {
                    if pushed {
                        if id == c.source_node {
                            assert(r@[before.len() as int] == id);
                        }
                        if before.contains(id) {
                            let k = choose|k: int| 0 <= k < before.len() && before[k] == id;
                            assert(r@[k] == id);
                        }
                        if r@.contains(id) {
                            let k = choose|k: int| 0 <= k < r@.len() && r@[k] == id;
                            if k < before.len() {
                                assert(before[k] == id);
                            }
                        }
                    }
                }
                let pre = self.connections@.take(i as int);
                let post = self.connections@.take(i + 1);
                assert forall|id: NodeId|
                    r@.contains(id) <==> is_upstream_of(post, id, node_id) by {
                    assert(before.contains(id) <==> is_upstream_of(pre, id, node_id));
                    assert(r@.contains(id) <==> (before.contains(id) || (pushed && id
                        == c.source_node)));
                    if is_upstream_of(pre, id, node_id) {
                        let k = choose|k: int|
                            0 <= k < pre.len() && pre[k].spec_target_node() == node_id
                                && pre[k].spec_source_node() == id;
                        assert(post[k] == pre[k]);
                    }
                    if is_upstream_of(post, id, node_id) {
                        let k = choose|k: int|
                            0 <= k < post.len() && post[k].spec_target_node() == node_id
                                && post[k].spec_source_node() == id;
                        if k < i {
                            assert(pre[k] == post[k]);
                        }
                    }
                    assert(post[i as int] == *c);
                    if pushed && id == c.source_node {
                        assert(post[i as int].spec_target_node() == node_id);
                        assert(post[i as int].spec_source_node() == id);
                    }
                }
            }
        }
        assert(self.connections@.take(n as int) == self.connections@);
        r
    }
}

/// Whether `id` occurs in `ids`.
pub(crate) fn contains_id(ids: &Vec<NodeId>, id: NodeId) -> (r: bool)
    ensures
        r == ids@.contains(id),
{
    let n = ids.len();
    for i in 0..n
        invariant
            n == ids@.len(),
            forall|j: int| 0 <= j < i ==> ids@[j] != id,
    {
        if ids[i] == id {
            return true;
        }
    }
    false
}

/// In a well-formed graph, looking up the identifier of the node at vertex
/// `i` finds that very vertex, and with it that very node.
pub proof fn lemma_lookup_finds_node(graph: DataflowGraph, i: int)
    requires
        graph.well_formed(),
        0 <= i < graph.spec_nodes().len(),
    ensures
        contains_node(graph.spec_nodes(), graph.spec_nodes()[i].spec_id()),
        position_of(graph.spec_nodes(), graph.spec_nodes()[i].spec_id()) == i,
        graph.spec_nodes()[position_of(graph.spec_nodes(), graph.spec_nodes()[i].spec_id())]
            == graph.spec_nodes()[i],
{
    lemma_position_of(graph.spec_nodes(), i);
}

/// In a well-formed graph, both ends of every connection are nodes of the
/// graph, so every edge has a source and a target vertex.
pub proof fn lemma_connections_have_endpoints(graph: DataflowGraph, e: int)
    requires
        graph.well_formed(),
        0 <= e < graph.spec_connections().len(),
    ensures
        contains_node(graph.spec_nodes(), graph.spec_connections()[e].spec_source_node()),
        contains_node(graph.spec_nodes(), graph.spec_connections()[e].spec_target_node()),
{
    assert(!is_dangling(graph.spec_nodes(), graph.spec_connections()[e]));
}

// ---------------------------------------------------------------------------
// Builder
// ---------------------------------------------------------------------------

/// Builder for constructing a [`DataflowGraph`].
///
/// Consumes `self` on each method call, and validates on
/// [`build`](Self::build).
pub struct DataflowGraphBuilder {
    nodes: Vec<NodeDescriptor>,
    connections: Vec<Connection>,
}

impl DataflowGraphBuilder {
    /// The nodes added so far, in order.
    pub closed spec fn spec_nodes(&self) -> Seq<NodeDescriptor> {
        self.nodes@
    }

    /// The connections added so far, in order.
    pub closed spec fn spec_connections(&self) -> Seq<Connection> {
        self.connections@
    }

    /// The builder never holds two nodes with one identifier.
    #[verifier::type_invariant]
    pub open spec fn well_formed(&self) -> bool {
        ids_distinct(self.spec_nodes())
    }

    /// Create an empty builder.
    pub fn new() -> (r: Self)
        ensures
            r.spec_nodes() == Seq::<NodeDescriptor>::empty(),
            r.spec_connections() == Seq::<Connection>::empty(),
            r.well_formed(),
    {
        DataflowGraphBuilder { nodes: Vec::new(), connections: Vec::new() }
    }

    /// Add a node to the graph.
    ///
    /// Returns [`Error::DuplicateNode`] if a node with the same id
    /// already exists.
    pub fn add_node(self, descriptor: NodeDescriptor) -> (r: Result<Self, Error>)
        ensures
            r is Ok <==> !contains_node(self.spec_nodes(), descriptor.spec_id()),
            r matches Ok(b) ==> {
                &&& b.spec_nodes() == self.spec_nodes().push(descriptor)
                &&& b.spec_connections() == self.spec_connections()
                &&& b.well_formed()
            },
            r matches Err(e) ==> e == (Error::DuplicateNode { node_id: descriptor.spec_id() }),
    {
        proof {
            use_type_invariant(&self);
        }
        let id = descriptor.id();
        let n = self.nodes.len();
        for i in 0..n
            invariant
                n == self.nodes@.len(),
                id == descriptor.spec_id(),
                forall|j: int| 0 <= j < i ==> self.nodes@[j].spec_id() != id,
        {
            if self.nodes[i].id() == id {
                return Err(Error::DuplicateNode { node_id: id });
            }
        }
        let DataflowGraphBuilder { mut nodes, connections } = self;
        nodes.push(descriptor);
        let r = DataflowGraphBuilder { nodes, connections };
        assert(r.spec_nodes()[n as int] == descriptor);
        Ok(r)
    }

    /// Add a connection to the graph.
    pub fn add_connection(self, connection: Connection) -> (r: Self)
        ensures
            r.spec_nodes() == self.spec_nodes(),
            r.spec_connections() == self.spec_connections().push(connection),
            r.well_formed(),
    {
        proof {
            use_type_invariant(&self);
        }
        let DataflowGraphBuilder { nodes, mut connections } = self;
        connections.push(connection);
        DataflowGraphBuilder { nodes, connections }
    }

    /// Validate and build the immutable [`DataflowGraph`].
    ///
    /// Returns [`Error::NodeNotFound`] if a connection references a node not
    /// in the graph; the error names the missing node of the first such
    /// connection, its source node when that is missing.
    pub fn build(self) -> (r: Result<DataflowGraph, Error>)
        ensures
            r is Ok <==> all_connected(self.spec_nodes(), self.spec_connections()),
            r matches Ok(g) ==> {
                &&& g.spec_nodes() == self.spec_nodes()
                &&& g.spec_connections() == self.spec_connections()
                &&& g.well_formed()
            },
            r matches Err(e) ==> exists|i: int|
                0 <= i < self.spec_connections().len() && is_dangling(
                    self.spec_nodes(),
                    #[trigger] self.spec_connections()[i],
                ) && (forall|j: int|
                    0 <= j < i ==> !is_dangling(self.spec_nodes(), self.spec_connections()[j]))
                    && e == (Error::NodeNotFound {
                    node_id: dangling_endpoint(self.spec_nodes(), self.spec_connections()[i]),
                }),
    {
        proof {
            use_type_invariant(&self);
        }
        let DataflowGraphBuilder { nodes, connections } = self;
        let mut node_index: HashMap<u64, usize> = HashMap::new();
        let n = nodes.len();
        let mut i: usize = 0;
        while i < n
            invariant
                i <= n,
                n == nodes@.len(),
                ids_distinct(nodes@),
                forall|j: int|
                    0 <= j < i ==> #[trigger] node_index@.contains_key(nodes@[j].spec_id()@)
                        && node_index@[nodes@[j].spec_id()@] == j,
                forall|k: u64| #[trigger]
                    node_index@.contains_key(k) ==> node_index@[k] < i
                        && nodes@[node_index@[k] as int].spec_id()@ == k,
            decreases n - i,
        {
            let key = nodes[i].id().value();
            proof {
                assert forall|j: int| 0 <= j < i implies nodes@[j].spec_id()@ != key by {
                    NodeId::lemma_view_injective(nodes@[j].spec_id(), nodes@[i as int].spec_id());
                }
            }
            let ghost before = node_index@;
            node_index.insert(key, i);
            proof {
                assert forall|j: int|
                    0 <= j < i + 1 implies #[trigger] node_index@.contains_key(nodes@[j].spec_id()@)
                        && node_index@[nodes@[j].spec_id()@] == j by {
                    if j < i {
                        assert(before.contains_key(nodes@[j].spec_id()@));
                    }
                }
            }
            i = i + 1;
        }
        let m = connections.len();
        for i in 0..m
            invariant
                n == nodes@.len(),
                m == connections@.len(),
                nodes@ == self.spec_nodes(),
                connections@ == self.spec_connections(),
                forall|j: int|
                    0 <= j < n ==> #[trigger] node_index@.contains_key(nodes@[j].spec_id()@)
                        && node_index@[nodes@[j].spec_id()@] == j,
                forall|k: u64| #[trigger]
                    node_index@.contains_key(k) ==> node_index@[k] < n
                        && nodes@[node_index@[k] as int].spec_id()@ == k,
                forall|j: int| 0 <= j < i ==> !is_dangling(nodes@, #[trigger] connections@[j]),
        {
            let c = &connections[i];
            let src = c.source_node;
            let tgt = c.target_node;
            proof {
                if contains_node(nodes@, src) {
                    let k = choose|k: int| 0 <= k < nodes@.len() && nodes@[k].spec_id() == src;
                    assert(node_index@.contains_key(nodes@[k].spec_id()@));
                }
                if contains_node(nodes@, tgt) {
                    let k = choose|k: int| 0 <= k < nodes@.len() && nodes@[k].spec_id() == tgt;
                    assert(node_index@.contains_key(nodes@[k].spec_id()@));
                }
                if node_index@.contains_key(src@) {
                    let k = node_index@[src@] as int;
                    NodeId::lemma_view_injective(nodes@[k].spec_id(), src);
                }
                if node_index@.contains_key(tgt@) {
                    let k = node_index@[tgt@] as int;
                    NodeId::lemma_view_injective(nodes@[k].spec_id(), tgt);
                }
            }
            if !node_index.contains_key(&src.value()) {
                return Err(Error::NodeNotFound { node_id: src });
            }
            if !node_index.contains_key(&tgt.value()) {
                return Err(Error::NodeNotFound { node_id: tgt });
            }
        }
        let g = DataflowGraph { nodes, connections, node_index };
        Ok(g)
    }
}

impl Default for DataflowGraphBuilder {
    fn default() -> (r: Self)
        ensures
            r.spec_nodes() == Seq::<NodeDescriptor>::empty(),
            r.spec_connections() == Seq::<Connection>::empty(),
            r.well_formed(),
    {
        Self::new()
    }
}

// ---------------------------------------------------------------------------
// Tracing
// ---------------------------------------------------------------------------

/// The name of the node with identifier `id`, or `?` when there is none.
pub open spec fn name_of(nodes: Seq<NodeDescriptor>, id: NodeId) -> Seq<char> {
    if contains_node(nodes, id) {
        nodes[position_of(nodes, id)].spec_name()
    } else {
        "?"@
    }
}

/// How vertex `index` is described: the node's name followed by its
/// identifier in parentheses, or `unknown(Vertex(index))` out of range.
pub open spec fn vertex_label(nodes: Seq<NodeDescriptor>, index: usize) -> Seq<char> {
    if index < nodes.len() {
        nodes[index as int].spec_name() + "("@ + node_id_text(nodes[index as int].spec_id())
            + ")"@
    } else {
        "unknown(Vertex("@ + decimal(index as nat) + "))"@
    }
}

/// How edge `index` is described: `source:out -> target:in` with the node
/// names and port names, or `unknown(Edge(index))` out of range.
pub open spec fn edge_label(
    nodes: Seq<NodeDescriptor>,
    connections: Seq<Connection>,
    index: usize,
) -> Seq<char> {
    if index < connections.len() {
        let c = connections[index as int];
        name_of(nodes, c.spec_source_node()) + ":"@ + c.spec_source_port()@ + " -> "@ + name_of(
            nodes,
            c.spec_target_node(),
        ) + ":"@ + c.spec_target_port()@
    } else {
        "unknown(Edge("@ + decimal(index as nat) + "))"@
    }
}

/// How the empty path at a vertex described by `object` is described.
pub open spec fn identity_text(object: Seq<char>) -> Seq<char> {
    "[identity at "@ + object + "]"@
}

/// How a path is described from the descriptions of its two halves.
pub open spec fn composition_text(first: Seq<char>, second: Seq<char>) -> Seq<char> {
    first + " >> "@ + second
}

/// Describes the empty path at a vertex described by `object`.
pub fn identity_label(object: &str) -> (r: String)
    ensures
        r@ == identity_text(object@),
{
    String::from_str("[identity at ").concat(object).concat("]")
}

/// Describes a path from the descriptions of its two halves.
pub fn compose_labels(first: String, second: String) -> (r: String)
    ensures
        r@ == composition_text(first@, second@),
{
    first.concat(" >> ").concat(second.as_str())
}

/// A graph morphism that produces human-readable descriptions: vertices
/// map to node names, edges to connection descriptions.
pub struct TracingMorphism<'a> {
    graph: &'a DataflowGraph,
}

impl<'a> TracingMorphism<'a> {
    /// The graph being described.
    pub closed spec fn spec_graph(&self) -> DataflowGraph {
        *self.graph
    }

    /// Create a tracing morphism for the given graph.
    pub fn new(graph: &'a DataflowGraph) -> (r: Self)
        ensures
            r.spec_graph() == *graph,
    {
        TracingMorphism { graph }
    }

    /// The graph being described.
    pub fn graph(&self) -> (r: &'a DataflowGraph)
        ensures
            *r == self.spec_graph(),
    {
        self.graph
    }

    /// Describe a vertex.
    pub fn map_vertex(&self, v: Vertex) -> (r: String)
        ensures
            r@ == vertex_label(self.spec_graph().spec_nodes(), vertex_index(v)),
    {
        proof {
            use_type_invariant(self.graph);
        }
        let i = index_of_vertex(v);
        if i < self.graph.nodes.len() {
            let n = &self.graph.nodes[i];
            n.name.clone().concat("(").concat(n.id.to_string().as_str()).concat(")")
        } else {
            String::from_str("unknown(Vertex(").concat(decimal_string_usize(i).as_str()).concat(
                "))",
            )
        }
    }

    /// The name of the node with identifier `id`, or `?`.
    fn node_name(&self, id: NodeId) -> (r: &str)
        ensures
            r@ == name_of(self.spec_graph().spec_nodes(), id),
    {
        proof {
            use_type_invariant(self.graph);
        }
        match self.graph.node_for(id) {
            Ok(n) => n.name(),
            Err(_) => "?",
        }
    }

    /// Describe an edge.
    pub fn map_edge(&self, e: Edge) -> (r: String)
        ensures
            r@ == edge_label(
                self.spec_graph().spec_nodes(),
                self.spec_graph().spec_connections(),
                edge_index(e),
            ),
    {
        proof {
            use_type_invariant(self.graph);
        }
        let i = index_of_edge(e);
        if i < self.graph.connections.len() {
            let c = &self.graph.connections[i];
            String::from_str(self.node_name(c.source_node)).concat(":").concat(
                c.source_port.name(),
            ).concat(" -> ").concat(self.node_name(c.target_node)).concat(":").concat(
                c.target_port.name(),
            )
        } else {
            String::from_str("unknown(Edge(").concat(decimal_string_usize(i).as_str()).concat("))")
        }
    }
}

} // verus!
