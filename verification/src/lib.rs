//! Dataflow graphs whose nodes exchange events along connections.
//!
//! A dataflow graph is a free category: nodes are vertices, connections are
//! edges, and data flow paths are morphisms.  The runtime routes data from
//! an output port to every input port connected to it, and stops each node
//! once all of its upstream producers are done.

pub mod channel;
pub mod dispatcher;
pub mod error;
pub mod event;
pub mod graph;
pub mod service;
pub mod text;
