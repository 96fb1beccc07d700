//! Events delivered to nodes, and the request/response protocol spoken
//! between nodes and the runtime.

use vstd::prelude::*;

use crate::graph::{InputPort, NodeId, OutputPort};

verus! {

/// An event delivered to a processing node.
#[derive(Debug, Clone)]
pub enum Event {
    /// Data arrived on an input port.
    Input {
        /// The port that received the data.
        port: InputPort,
        /// The raw data payload.
        data: Vec<u8>,
    },
    /// The runtime is requesting graceful shutdown.
    Stop,
}

impl Event {
    /// Whether this is the shutdown request.
    pub fn is_stop(&self) -> (r: bool)
        ensures
            r == (self is Stop),
    {
        match self {
            Event::Stop => true,
            Event::Input { .. } => false,
        }
    }

    /// What a node's event stream yields for one value taken from its
    /// channel (`None` when the channel is closed): input events are passed
    /// on, while a stop request or a closed channel ends the stream.
    pub fn stream_item(received: Option<Event>) -> (r: Option<Event>)
        ensures
            r == (match received {
                Some(Event::Input { port, data }) => Some(Event::Input { port, data }),
                _ => None::<Event>,
            }),
    {
        match received {
            Some(Event::Input { port, data }) => Some(Event::Input { port, data }),
            _ => None,
        }
    }
}

/// A request from a node to the runtime.
#[derive(Debug, Clone)]
pub enum RuntimeRequest {
    /// Register this node with the runtime.
    Register {
        /// The node requesting registration.
        node_id: NodeId,
    },
    /// Poll for the next event (blocks until available).
    NextEvent {
        /// The node polling for events.
        node_id: NodeId,
    },
    /// Send output data on a port.
    SendOutput {
        /// The node sending output.
        node_id: NodeId,
        /// The output port.
        port: OutputPort,
        /// The raw data payload.
        data: Vec<u8>,
    },
    /// Signal that this node has finished processing.
    NodeDone {
        /// The node that is done.
        node_id: NodeId,
    },
}

/// A response from the runtime to a node.
#[derive(Debug, Clone)]
pub enum RuntimeResponse {
    /// Registration acknowledged.
    Registered,
    /// The next event for the node.
    Event(Event),
    /// Output was accepted and routed to downstream nodes.
    OutputAccepted,
    /// Node shutdown acknowledged.
    DoneAcknowledged,
}

} // verus!
