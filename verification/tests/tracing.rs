use comp_cat_rs::collapse::free_category::{Edge, Vertex};
use dora_cat::error::Error;
use dora_cat::graph::{
    compose_labels, identity_label, Connection, DataflowGraph, DataflowGraphBuilder, InputPort,
    NodeDescriptor, NodeId, OutputPort, TracingMorphism,
};

fn simple_graph() -> Result<DataflowGraph, Error> {
    DataflowGraphBuilder::new()
        .add_node(NodeDescriptor::new(
            NodeId::new(0),
            "source".into(),
            vec![],
            vec![OutputPort::new("out".into())],
        ))?
        .add_node(NodeDescriptor::new(
            NodeId::new(1),
            "sink".into(),
            vec![InputPort::new("in".into())],
            vec![],
        ))?
        .add_connection(Connection::new(
            NodeId::new(0),
            OutputPort::new("out".into()),
            NodeId::new(1),
            InputPort::new("in".into()),
        ))
        .build()
}

#[test]
fn vertex_labels_name_the_node() -> Result<(), Error> {
    let graph = simple_graph()?;
    let tracer = TracingMorphism::new(&graph);
    assert_eq!(tracer.map_vertex(Vertex::new(0)), "source(NodeId(0))");
    assert_eq!(tracer.map_vertex(Vertex::new(1)), "sink(NodeId(1))");
    assert_eq!(tracer.map_vertex(Vertex::new(12)), "unknown(Vertex(12))");
    assert_eq!(tracer.graph().vertex_count(), 2);
    Ok(())
}

#[test]
fn edge_labels_describe_the_connection() -> Result<(), Error> {
    let graph = simple_graph()?;
    let tracer = TracingMorphism::new(&graph);
    let label = tracer.map_edge(Edge::new(0));
    assert_eq!(label, "source:out -> sink:in");
    assert!(label.contains("source"));
    assert!(label.contains("sink"));
    assert_eq!(tracer.map_edge(Edge::new(3)), "unknown(Edge(3))");
    Ok(())
}

#[test]
fn path_labels_compose() {
    assert_eq!(identity_label("source(NodeId(0))"), "[identity at source(NodeId(0))]");
    assert_eq!(
        compose_labels("a:x -> b:y".to_string(), "b:z -> c:w".to_string()),
        "a:x -> b:y >> b:z -> c:w"
    );
}

#[test]
fn error_messages() {
    assert_eq!(
        Error::DuplicateNode { node_id: NodeId::new(3) }.to_string(),
        "duplicate node: NodeId(3)"
    );
    assert_eq!(
        Error::NodeNotFound { node_id: NodeId::new(12) }.to_string(),
        "node not found: NodeId(12)"
    );
    assert_eq!(
        Error::PortNotFound { node_id: NodeId::new(1), port: OutputPort::new("out".into()) }
            .to_string(),
        "port out not found on node NodeId(1)"
    );
    assert_eq!(Error::ChannelClosed.to_string(), "channel closed");
    assert_eq!(Error::Shutdown.to_string(), "runtime shutdown");
    assert_eq!(
        Error::QueueFull { node_id: NodeId::new(4) }.to_string(),
        "queue full for node NodeId(4)"
    );
    assert_eq!(
        Error::NodePanicked { node_id: NodeId::new(9) }.to_string(),
        "node NodeId(9) panicked"
    );
}

#[test]
fn wrapped_error_messages_keep_their_prefix() {
    let io = Error::from(std::io::Error::new(std::io::ErrorKind::Other, "disk gone"));
    assert_eq!(io.to_string(), "I/O error: disk gone");
    let rpc = Error::from(tarpc_cat::error::Error::ConnectionClosed);
    assert_eq!(rpc.to_string(), "RPC error: connection closed");
    let graph = Error::from(
        comp_cat_rs::collapse::free_category::FreeCategoryError::EdgeOutOfBounds {
            edge: Edge::new(5),
            count: 2,
        },
    );
    assert_eq!(graph.to_string(), "graph error: edge index 5 out of bounds (count: 2)");
}

#[test]
fn messages_take_the_wrapped_text() {
    let io = Error::from(std::io::Error::new(std::io::ErrorKind::Other, "x"));
    assert_eq!(io.message_with("disk full"), "I/O error: disk full");
    assert_eq!(Error::Shutdown.message_with("ignored"), "runtime shutdown");
    assert!(matches!(io.source(), Some(dora_cat::error::ErrorSource::Io(_))));
}
