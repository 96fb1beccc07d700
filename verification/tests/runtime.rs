use std::sync::mpsc;

use dora_cat::dispatcher::{wire, Coordinator, Wiring};
use dora_cat::error::Error;
use dora_cat::event::{Event, RuntimeRequest, RuntimeResponse};
use dora_cat::graph::{
    Connection, DataflowGraph, DataflowGraphBuilder, InputPort, NodeDescriptor, NodeId,
    OutputPort,
};
use dora_cat::service::{answer_poll, Effect, Polled, Reply, RuntimeService};

fn node(id: u64, name: &str) -> NodeDescriptor {
    NodeDescriptor::new(NodeId::new(id), name.to_string(), vec![], vec![])
}

fn connect(from: u64, out: &str, to: u64, inp: &str) -> Connection {
    Connection::new(
        NodeId::new(from),
        OutputPort::new(out.to_string()),
        NodeId::new(to),
        InputPort::new(inp.to_string()),
    )
}

fn pipeline() -> Result<DataflowGraph, Error> {
    DataflowGraphBuilder::new()
        .add_node(node(0, "source"))?
        .add_node(node(1, "sink"))?
        .add_connection(connect(0, "out", 1, "in"))
        .build()
}

/// Two sources, one merger fed by both, one sink fed by the merger.
fn diamond() -> Result<DataflowGraph, Error> {
    DataflowGraphBuilder::new()
        .add_node(node(1, "a"))?
        .add_node(node(2, "b"))?
        .add_node(node(3, "merge"))?
        .add_node(node(4, "sink"))?
        .add_connection(connect(1, "out", 3, "left"))
        .add_connection(connect(2, "out", 3, "right"))
        .add_connection(connect(3, "out", 4, "in"))
        .build()
}

fn ready(reply: Reply) -> (Result<RuntimeResponse, tarpc_cat::error::Error>, Effect) {
    match reply {
        Reply::Ready(answer, effect) => (answer, effect),
        Reply::AwaitEvent(_) => panic!("expected an answer at once"),
    }
}

fn inputs(rx: &mpsc::Receiver<Event>) -> Vec<(String, Vec<u8>)> {
    rx.try_iter()
        .map(|e| match e {
            Event::Input { port, data } => (port.name().to_string(), data),
            Event::Stop => ("<stop>".to_string(), vec![]),
        })
        .collect()
}

#[test]
fn wire_gives_one_receiver_per_node_in_order() -> Result<(), Error> {
    let graph = diamond()?;
    let wiring = wire(&graph);
    let ids: Vec<u64> = wiring.receivers.iter().map(|(id, _)| id.value()).collect();
    assert_eq!(ids, vec![1, 2, 3, 4]);
    let mut keys: Vec<u64> = wiring.stop_senders.keys().copied().collect();
    keys.sort_unstable();
    assert_eq!(keys, vec![1, 2, 3, 4]);
    Ok(())
}

#[test]
fn linear_pipeline_delivers_data_in_order() -> Result<(), Error> {
    let graph = pipeline()?;
    let wiring = wire(&graph);
    let out = OutputPort::new("out".into());
    for i in 0u8..3 {
        wiring.routing_table.deliver(NodeId::new(0), &out, &[i]);
    }
    let collected: Vec<u8> = inputs(&wiring.receivers[1].1)
        .into_iter()
        .flat_map(|(port, data)| {
            assert_eq!(port, "in");
            data
        })
        .collect();
    assert_eq!(collected, vec![0, 1, 2]);
    assert!(inputs(&wiring.receivers[0].1).is_empty());
    Ok(())
}

#[test]
fn deliver_reaches_only_matching_routes() -> Result<(), Error> {
    let graph = diamond()?;
    let wiring = wire(&graph);
    wiring
        .routing_table
        .deliver(NodeId::new(2), &OutputPort::new("out".into()), &[7, 8]);
    wiring
        .routing_table
        .deliver(NodeId::new(2), &OutputPort::new("other".into()), &[9]);
    assert_eq!(inputs(&wiring.receivers[2].1), vec![("right".to_string(), vec![7, 8])]);
    assert!(inputs(&wiring.receivers[3].1).is_empty());
    let routes = wiring
        .routing_table
        .routes_from(NodeId::new(1), &OutputPort::new("out".into()));
    assert_eq!(routes.len(), 1);
    Ok(())
}

#[test]
fn deliver_ignores_closed_receivers() -> Result<(), Error> {
    let graph = pipeline()?;
    let wiring = wire(&graph);
    drop(wiring.receivers);
    wiring
        .routing_table
        .deliver(NodeId::new(0), &OutputPort::new("out".into()), &[1]);
    Ok(())
}

#[test]
fn coordinator_stops_sink_after_source_is_done() -> Result<(), Error> {
    let graph = pipeline()?;
    let mut coordinator = Coordinator::new(2);
    let step = coordinator.on_done(&graph, NodeId::new(0));
    assert_eq!(step.stops, vec![NodeId::new(1)]);
    assert!(!step.finished);
    let step = coordinator.on_done(&graph, NodeId::new(1));
    assert!(step.stops.is_empty());
    assert!(step.finished);
    Ok(())
}

#[test]
fn coordinator_waits_for_all_producers() -> Result<(), Error> {
    let graph = diamond()?;
    let mut coordinator = Coordinator::new(4);
    let step = coordinator.on_done(&graph, NodeId::new(1));
    assert!(step.stops.is_empty());
    assert!(!step.finished);
    let step = coordinator.on_done(&graph, NodeId::new(2));
    assert_eq!(step.stops, vec![NodeId::new(3)]);
    let step = coordinator.on_done(&graph, NodeId::new(2));
    assert_eq!(step.stops, vec![NodeId::new(3)]);
    assert!(coordinator.is_done(NodeId::new(2)));
    assert!(!coordinator.is_done(NodeId::new(3)));
    let step = coordinator.on_done(&graph, NodeId::new(3));
    assert_eq!(step.stops, vec![NodeId::new(4)]);
    assert!(!step.finished);
    let step = coordinator.on_done(&graph, NodeId::new(4));
    assert!(step.stops.is_empty());
    assert!(step.finished);
    Ok(())
}

#[test]
fn coordinator_never_stops_a_source() -> Result<(), Error> {
    let graph = diamond()?;
    let mut coordinator = Coordinator::new(4);
    let step = coordinator.on_done(&graph, NodeId::new(4));
    assert!(step.stops.is_empty());
    let step = coordinator.on_done(&graph, NodeId::new(3));
    assert!(step.stops.is_empty());
    assert!(!step.finished);
    Ok(())
}

#[test]
fn coordinator_with_no_nodes_finishes_at_once() -> Result<(), Error> {
    let graph = DataflowGraphBuilder::new().build()?;
    let mut coordinator = Coordinator::new(0);
    let step = coordinator.on_done(&graph, NodeId::new(5));
    assert!(step.finished);
    Ok(())
}

#[test]
fn service_answers_each_request() -> Result<(), Error> {
    let graph = pipeline()?;
    let wiring = wire(&graph);
    let (done_tx, done_rx) = mpsc::channel();
    let service = RuntimeService::new(wiring.routing_table, done_tx);

    assert!(matches!(
        ready(service.handle(RuntimeRequest::Register { node_id: NodeId::new(0) })).0,
        Ok(RuntimeResponse::Registered)
    ));
    assert!(matches!(
        service.handle(RuntimeRequest::NextEvent { node_id: NodeId::new(1) }),
        Reply::AwaitEvent(id) if id == NodeId::new(1)
    ));
    assert!(matches!(
        ready(service.handle(RuntimeRequest::SendOutput {
            node_id: NodeId::new(0),
            port: OutputPort::new("out".into()),
            data: vec![4, 2],
        }))
        .0,
        Ok(RuntimeResponse::OutputAccepted)
    ));
    assert_eq!(inputs(&wiring.receivers[1].1), vec![("in".to_string(), vec![4, 2])]);
    assert!(matches!(
        ready(service.handle(RuntimeRequest::NodeDone { node_id: NodeId::new(0) })).0,
        Ok(RuntimeResponse::DoneAcknowledged)
    ));
    assert_eq!(done_rx.try_recv().ok(), Some(NodeId::new(0)));

    drop(done_rx);
    match ready(service.handle(RuntimeRequest::NodeDone { node_id: NodeId::new(1) })).0 {
        Err(tarpc_cat::error::Error::Server { message }) => {
            assert_eq!(message, "coordinator channel closed")
        }
        _ => panic!("expected a server error"),
    }
    Ok(())
}

#[test]
fn event_stream_ends_at_stop_or_close() {
    let input = Event::Input { port: InputPort::new("in".into()), data: vec![1] };
    assert!(matches!(Event::stream_item(Some(input)), Some(Event::Input { .. })));
    assert!(Event::stream_item(Some(Event::Stop)).is_none());
    assert!(Event::stream_item(None).is_none());
    assert!(Event::Stop.is_stop());
}

#[test]
fn wire_routes_name_target_vertices() -> Result<(), Error> {
    let graph = diamond()?;
    let wiring = wire(&graph);
    let targets: Vec<usize> = [(1, "out"), (2, "out"), (3, "out")]
        .iter()
        .flat_map(|(n, p)| {
            wiring
                .routing_table
                .routes_from(NodeId::new(*n), &OutputPort::new(p.to_string()))
                .into_iter()
                .map(|r| r.target())
                .collect::<Vec<_>>()
        })
        .collect();
    assert_eq!(targets, vec![2, 2, 3]);
    Ok(())
}

#[test]
fn stop_sender_feeds_the_nodes_own_receiver() -> Result<(), Error> {
    let graph = diamond()?;
    let wiring = wire(&graph);
    for (i, (id, rx)) in wiring.receivers.iter().enumerate() {
        wiring.stop_senders[&id.value()].send(Event::Stop).unwrap();
        assert_eq!(inputs(rx), vec![("<stop>".to_string(), vec![])]);
        for (j, (_, other)) in wiring.receivers.iter().enumerate() {
            if j != i {
                assert!(inputs(other).is_empty());
            }
        }
    }
    Ok(())
}

#[test]
fn deliver_reports_each_send() -> Result<(), Error> {
    let graph = diamond()?;
    let wiring = wire(&graph);
    let sent = wiring
        .routing_table
        .deliver(NodeId::new(3), &OutputPort::new("out".into()), &[5]);
    assert_eq!(sent.len(), 1);
    assert!(sent[0].accepted());
    let wiring = wire(&graph);
    let Wiring { receivers, routing_table, .. } = wiring;
    drop(receivers);
    let sent = routing_table.deliver(NodeId::new(1), &OutputPort::new("out".into()), &[5]);
    assert_eq!(sent.len(), 1);
    assert!(!sent[0].accepted());
    let none = routing_table.deliver(NodeId::new(4), &OutputPort::new("out".into()), &[5]);
    assert!(none.is_empty());
    Ok(())
}

#[test]
fn cloned_table_routes_the_same_way() -> Result<(), Error> {
    let graph = pipeline()?;
    let wiring = wire(&graph);
    let table = wiring.routing_table.clone();
    table.deliver(NodeId::new(0), &OutputPort::new("out".into()), &[3]);
    assert_eq!(inputs(&wiring.receivers[1].1), vec![("in".to_string(), vec![3])]);
    Ok(())
}

#[test]
fn service_reports_what_it_sent() -> Result<(), Error> {
    let graph = pipeline()?;
    let wiring = wire(&graph);
    let (done_tx, done_rx) = mpsc::channel();
    let service = RuntimeService::new(wiring.routing_table, done_tx);
    let (answer, effect) = ready(service.handle(RuntimeRequest::SendOutput {
        node_id: NodeId::new(0),
        port: OutputPort::new("out".into()),
        data: vec![1],
    }));
    assert!(matches!(answer, Ok(RuntimeResponse::OutputAccepted)));
    assert!(matches!(effect, Effect::Delivered(ref sent) if sent.len() == 1));
    let (answer, effect) =
        ready(service.handle(RuntimeRequest::Register { node_id: NodeId::new(1) }));
    assert!(matches!(answer, Ok(RuntimeResponse::Registered)));
    assert!(matches!(effect, Effect::Nothing));
    let (answer, effect) =
        ready(service.handle(RuntimeRequest::NodeDone { node_id: NodeId::new(1) }));
    assert!(matches!(answer, Ok(RuntimeResponse::DoneAcknowledged)));
    assert!(matches!(effect, Effect::Forwarded(ref s) if s.accepted()));
    assert_eq!(done_rx.try_recv().ok(), Some(NodeId::new(1)));
    drop(done_rx);
    let (answer, effect) =
        ready(service.handle(RuntimeRequest::NodeDone { node_id: NodeId::new(0) }));
    assert!(matches!(answer, Err(tarpc_cat::error::Error::Server { .. })));
    assert!(matches!(effect, Effect::Forwarded(ref s) if !s.accepted()));
    Ok(())
}

#[test]
fn runtime_errors_become_server_errors() {
    let rpc: tarpc_cat::error::Error = Error::NodeNotFound { node_id: NodeId::new(2) }.into();
    match rpc {
        tarpc_cat::error::Error::Server { message } => {
            assert_eq!(message, "node not found: NodeId(2)")
        }
        _ => panic!("expected a server error"),
    }
    assert!(Error::ChannelClosed.source().is_none());
    assert!(matches!(
        Error::from(tarpc_cat::error::Error::ConnectionClosed).source(),
        Some(dora_cat::error::ErrorSource::Rpc(tarpc_cat::error::Error::ConnectionClosed))
    ));
    let graph: tarpc_cat::error::Error = Error::from(
        comp_cat_rs::collapse::free_category::FreeCategoryError::EdgeOutOfBounds {
            edge: comp_cat_rs::collapse::free_category::Edge::new(1),
            count: 0,
        },
    )
    .into();
    match graph {
        tarpc_cat::error::Error::Server { message } => {
            assert_eq!(message, "graph error: edge index 1 out of bounds (count: 0)")
        }
        _ => panic!("expected a server error"),
    }
}

#[test]
fn polls_are_answered_from_the_nodes_events() {
    let event = Event::Input { port: InputPort::new("in".into()), data: vec![9] };
    match answer_poll(Polled::Next(event)) {
        Ok(RuntimeResponse::Event(Event::Input { port, data })) => {
            assert_eq!(port.name(), "in");
            assert_eq!(data, vec![9]);
        }
        _ => panic!("expected the event"),
    }
    assert!(matches!(answer_poll(Polled::Next(Event::Stop)), Ok(RuntimeResponse::Event(Event::Stop))));
    match answer_poll(Polled::Closed) {
        Err(tarpc_cat::error::Error::Server { message }) => assert_eq!(message, "channel closed"),
        _ => panic!("expected a server error"),
    }
    match answer_poll(Polled::NoSource) {
        Err(tarpc_cat::error::Error::Server { message }) => {
            assert_eq!(message, "NextEvent not supported via RPC; use NodeHandle directly")
        }
        _ => panic!("expected a server error"),
    }
}
