use comp_cat_rs::collapse::free_category::{Edge, Vertex};
use dora_cat::error::Error;
use dora_cat::graph::{
    Connection, DataflowGraph, DataflowGraphBuilder, InputPort, NodeDescriptor, NodeId,
    OutputPort,
};

fn simple_graph() -> Result<DataflowGraph, Error> {
    DataflowGraphBuilder::new()
        .add_node(NodeDescriptor::new(
            NodeId::new(0),
            "source".into(),
            vec![],
            vec![OutputPort::new("out".into())],
        ))?
        .add_node(NodeDescriptor::new(
            NodeId::new(1),
            "sink".into(),
            vec![InputPort::new("in".into())],
            vec![],
        ))?
        .add_connection(Connection::new(
            NodeId::new(0),
            OutputPort::new("out".into()),
            NodeId::new(1),
            InputPort::new("in".into()),
        ))
        .build()
}

#[test]
fn graph_has_correct_counts() -> Result<(), Error> {
    let graph = simple_graph()?;
    assert_eq!(graph.vertex_count(), 2);
    assert_eq!(graph.edge_count(), 1);
    Ok(())
}

#[test]
fn graph_source_target_correct() -> Result<(), Error> {
    let graph = simple_graph()?;
    let src = graph.source(Edge::new(0))?;
    let tgt = graph.target(Edge::new(0))?;
    assert_eq!(src, Vertex::new(0));
    assert_eq!(tgt, Vertex::new(1));
    Ok(())
}

#[test]
fn duplicate_node_rejected() {
    let result = DataflowGraphBuilder::new()
        .add_node(NodeDescriptor::new(
            NodeId::new(0),
            "a".into(),
            vec![],
            vec![],
        ))
        .and_then(|b| {
            b.add_node(NodeDescriptor::new(
                NodeId::new(0),
                "b".into(),
                vec![],
                vec![],
            ))
        });
    assert!(matches!(result, Err(Error::DuplicateNode { .. })));
}

fn node(id: u64, name: &str, inputs: &[&str], outputs: &[&str]) -> NodeDescriptor {
    NodeDescriptor::new(
        NodeId::new(id),
        name.to_string(),
        inputs.iter().map(|p| InputPort::new(p.to_string())).collect(),
        outputs.iter().map(|p| OutputPort::new(p.to_string())).collect(),
    )
}

fn connect(from: u64, out: &str, to: u64, inp: &str) -> Connection {
    Connection::new(
        NodeId::new(from),
        OutputPort::new(out.to_string()),
        NodeId::new(to),
        InputPort::new(inp.to_string()),
    )
}

/// Two sources feeding a merger, which feeds a sink twice on one port.
fn fan_in_graph() -> Result<DataflowGraph, Error> {
    DataflowGraphBuilder::new()
        .add_node(node(10, "left", &[], &["out"]))?
        .add_node(node(20, "right", &[], &["out"]))?
        .add_node(node(30, "merge", &["a", "b"], &["out", "side"]))?
        .add_node(node(40, "sink", &["in", "aux"], &[]))?
        .add_connection(connect(10, "out", 30, "a"))
        .add_connection(connect(20, "out", 30, "b"))
        .add_connection(connect(10, "out", 30, "b"))
        .add_connection(connect(30, "out", 40, "in"))
        .add_connection(connect(30, "side", 40, "aux"))
        .add_connection(connect(30, "out", 40, "aux"))
        .build()
}

#[test]
fn node_id_round_trips_its_value() {
    assert_eq!(NodeId::new(42).value(), 42);
    assert_eq!(NodeId::new(u64::MAX).value(), u64::MAX);
    assert_eq!(NodeId::new(7).to_string(), "NodeId(7)");
    assert_eq!(NodeId::new(0).to_string(), "NodeId(0)");
    assert_eq!(NodeId::new(1234567890).to_string(), "NodeId(1234567890)");
}

#[test]
fn descriptors_keep_what_they_were_made_with() {
    let d = node(5, "filter", &["in"], &["out", "err"]);
    assert_eq!(d.id(), NodeId::new(5));
    assert_eq!(d.name(), "filter");
    assert_eq!(d.inputs().len(), 1);
    assert_eq!(d.inputs()[0].name(), "in");
    assert_eq!(d.outputs().len(), 2);
    assert_eq!(d.outputs()[1].name(), "err");
    let c = connect(1, "out", 2, "in");
    assert_eq!(c.source_node(), NodeId::new(1));
    assert_eq!(c.source_port().name(), "out");
    assert_eq!(c.target_node(), NodeId::new(2));
    assert_eq!(c.target_port().name(), "in");
}

#[test]
fn ports_compare_by_name() {
    assert!(OutputPort::new("x".into()) == OutputPort::new("x".into()));
    assert!(OutputPort::new("x".into()) != OutputPort::new("y".into()));
    assert!(InputPort::new("in".into()) == InputPort::new("in".into()).clone());
    assert_eq!(OutputPort::new("out".into()).clone().name(), "out");
}

#[test]
fn builder_keeps_nodes_and_connections_in_order() -> Result<(), Error> {
    let graph = fan_in_graph()?;
    let ids: Vec<u64> = graph.nodes().iter().map(|n| n.id().value()).collect();
    assert_eq!(ids, vec![10, 20, 30, 40]);
    assert_eq!(graph.connections().len(), 6);
    assert_eq!(graph.connections()[2].target_port().name(), "b");
    assert_eq!(graph.vertex_count(), 4);
    assert_eq!(graph.edge_count(), 6);
    Ok(())
}

#[test]
fn duplicate_node_names_the_duplicate_and_keeps_nothing_else() {
    let result = DataflowGraphBuilder::new()
        .add_node(node(1, "a", &[], &[]))
        .and_then(|b| b.add_node(node(2, "b", &[], &[])))
        .and_then(|b| b.add_node(node(2, "c", &[], &[])));
    match result {
        Err(Error::DuplicateNode { node_id }) => assert_eq!(node_id, NodeId::new(2)),
        _ => panic!("expected a duplicate node error"),
    }
}

#[test]
fn build_rejects_connection_from_missing_node() {
    let result = DataflowGraphBuilder::new()
        .add_node(node(1, "a", &[], &[]))
        .map(|b| b.add_connection(connect(9, "out", 1, "in")))
        .and_then(|b| b.build());
    match result {
        Err(Error::NodeNotFound { node_id }) => assert_eq!(node_id, NodeId::new(9)),
        _ => panic!("expected a missing node error"),
    }
}

#[test]
fn build_reports_missing_source_before_missing_target() {
    let result = DataflowGraphBuilder::new()
        .add_node(node(1, "a", &[], &[]))
        .map(|b| {
            b.add_connection(connect(1, "out", 1, "in"))
                .add_connection(connect(7, "out", 8, "in"))
                .add_connection(connect(1, "out", 6, "in"))
        })
        .and_then(|b| b.build());
    match result {
        Err(Error::NodeNotFound { node_id }) => assert_eq!(node_id, NodeId::new(7)),
        _ => panic!("expected a missing node error"),
    }
}

#[test]
fn build_reports_missing_target_of_first_dangling_connection() {
    let result = DataflowGraphBuilder::new()
        .add_node(node(1, "a", &[], &[]))
        .map(|b| {
            b.add_connection(connect(1, "out", 6, "in"))
                .add_connection(connect(7, "out", 8, "in"))
        })
        .and_then(|b| b.build());
    match result {
        Err(Error::NodeNotFound { node_id }) => assert_eq!(node_id, NodeId::new(6)),
        _ => panic!("expected a missing node error"),
    }
}

#[test]
fn empty_builder_builds_empty_graph() -> Result<(), Error> {
    let graph = DataflowGraphBuilder::default().build()?;
    assert_eq!(graph.vertex_count(), 0);
    assert_eq!(graph.edge_count(), 0);
    assert!(matches!(
        graph.source(Edge::new(0)),
        Err(comp_cat_rs::collapse::free_category::FreeCategoryError::EdgeOutOfBounds {
            count: 0,
            ..
        })
    ));
    Ok(())
}

#[test]
fn node_for_finds_each_node_and_reports_missing() -> Result<(), Error> {
    let graph = fan_in_graph()?;
    assert_eq!(graph.node_for(NodeId::new(30))?.name(), "merge");
    assert_eq!(graph.node_for(NodeId::new(10))?.name(), "left");
    assert!(matches!(
        graph.node_for(NodeId::new(99)),
        Err(Error::NodeNotFound { node_id }) if node_id == NodeId::new(99)
    ));
    Ok(())
}

#[test]
fn vertex_for_and_index_of_give_vertex_order() -> Result<(), Error> {
    let graph = fan_in_graph()?;
    assert_eq!(graph.vertex_for(NodeId::new(40))?, Vertex::new(3));
    assert_eq!(graph.vertex_for(NodeId::new(10))?, Vertex::new(0));
    assert_eq!(graph.index_of(NodeId::new(20)), Some(1));
    assert_eq!(graph.index_of(NodeId::new(21)), None);
    assert!(matches!(
        graph.vertex_for(NodeId::new(5)),
        Err(Error::NodeNotFound { .. })
    ));
    Ok(())
}

#[test]
fn source_and_target_of_every_edge() -> Result<(), Error> {
    let graph = fan_in_graph()?;
    assert_eq!(graph.source(Edge::new(1))?, Vertex::new(1));
    assert_eq!(graph.target(Edge::new(1))?, Vertex::new(2));
    assert_eq!(graph.source(Edge::new(5))?, Vertex::new(2));
    assert_eq!(graph.target(Edge::new(5))?, Vertex::new(3));
    assert_eq!(graph.source_index(3), Some(2));
    assert_eq!(graph.target_index(3), Some(3));
    assert_eq!(graph.source_index(6), None);
    assert_eq!(graph.target_index(6), None);
    assert!(matches!(
        graph.target(Edge::new(6)),
        Err(comp_cat_rs::collapse::free_category::FreeCategoryError::EdgeOutOfBounds {
            count: 6,
            edge,
        }) if edge == Edge::new(6)
    ));
    Ok(())
}

#[test]
fn outgoing_lists_connections_of_one_port_in_order() -> Result<(), Error> {
    let graph = fan_in_graph()?;
    let out = graph.outgoing(NodeId::new(30), &OutputPort::new("out".into()));
    let targets: Vec<&str> = out.iter().map(|c| c.target_port().name()).collect();
    assert_eq!(targets, vec!["in", "aux"]);
    let side = graph.outgoing(NodeId::new(30), &OutputPort::new("side".into()));
    assert_eq!(side.len(), 1);
    assert!(graph
        .outgoing(NodeId::new(40), &OutputPort::new("out".into()))
        .is_empty());
    assert!(graph
        .outgoing(NodeId::new(10), &OutputPort::new("nope".into()))
        .is_empty());
    Ok(())
}

#[test]
fn upstream_nodes_are_distinct_producers() -> Result<(), Error> {
    let graph = fan_in_graph()?;
    let mut merge_up: Vec<u64> = graph
        .upstream_nodes(NodeId::new(30))
        .iter()
        .map(|n| n.value())
        .collect();
    merge_up.sort_unstable();
    assert_eq!(merge_up, vec![10, 20]);
    let sink_up = graph.upstream_nodes(NodeId::new(40));
    assert_eq!(sink_up, vec![NodeId::new(30)]);
    assert!(graph.upstream_nodes(NodeId::new(10)).is_empty());
    Ok(())
}
