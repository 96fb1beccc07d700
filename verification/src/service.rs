//! The runtime's request handler.
//!
//! A [`RuntimeService`] holds the routing table and the sender of the
//! coordinator's done signals.  [`RuntimeService::handle`] answers one
//! request and returns the receipts of the sends it made.  The RPC server
//! that calls it lives outside the library.

use std::sync::mpsc::Sender;

use tarpc_cat::error::Error as RpcError;
use vstd::prelude::*;

use crate::channel::{forward_done, Sent};
use crate::dispatcher::{carries, delivers, RoutingTable};
use crate::error::{library_message, make_server_error, server_error, Error};
use crate::event::{Event, RuntimeRequest, RuntimeResponse};
use crate::graph::NodeId;

verus! {

/// The message answered to a request for events over RPC.
pub open spec fn next_event_unsupported() -> Seq<char> {
    "NextEvent not supported via RPC; use NodeHandle directly"@
}

/// The message answered when the coordinator no longer takes done signals.
pub open spec fn coordinator_closed() -> Seq<char> {
    "coordinator channel closed"@
}

/// The answer to a done signal: acknowledged when the coordinator accepted
/// it, an error when the coordinator's channel is closed.
pub open spec fn done_answer(accepted: bool) -> Result<RuntimeResponse, RpcError> {
    if accepted {
        Ok(RuntimeResponse::DoneAcknowledged)
    } else {
        Err(server_error(coordinator_closed()))
    }
}

/// The sends one request caused.
pub enum Effect {
    /// No send.
    Nothing,
    /// Output delivered along the routing table: one receipt per route.
    Delivered(Vec<Sent<Event>>),
    /// A done signal handed to the coordinator's channel.
    Forwarded(Sent<NodeId>),
}

/// What the service finds when it waits for the next event of a node.
pub enum Polled {
    /// The service does not hold the node's events: the node reads its own
    /// channel.
    NoSource,
    /// The node's channel is closed: no event will come.
    Closed,
    /// The node's next event.
    Next(Event),
}

/// The answer to a poll for a node's next event.
pub open spec fn poll_answer(polled: Polled) -> Result<RuntimeResponse, RpcError> {
    match polled {
        Polled::NoSource => Err(server_error(next_event_unsupported())),
        Polled::Closed => Err(server_error(library_message(Error::ChannelClosed))),
        Polled::Next(e) => Ok(RuntimeResponse::Event(e)),
    }
}

/// Answer a poll for a node's next event: the event when one came, an
/// error when the channel is closed, and a refusal when the node's events
/// are not held by the service.
pub fn answer_poll(polled: Polled) -> (r: Result<RuntimeResponse, RpcError>)
    ensures
        r == poll_answer(polled),
{
    match polled {
        Polled::NoSource => {
            let message = String::from_str(
                "NextEvent not supported via RPC; use NodeHandle directly",
            );
            proof {
                reveal_strlit("NextEvent not supported via RPC; use NodeHandle directly");
            }
            Err(make_server_error(message))
        },
        Polled::Closed => Err(RpcError::from(Error::ChannelClosed)),
        Polled::Next(e) => Ok(RuntimeResponse::Event(e)),
    }
}

/// How the service answers a request.
pub enum Reply {
    /// The answer, and the sends made to reach it.
    Ready(Result<RuntimeResponse, RpcError>, Effect),
    /// The answer is the next event of this node, once it comes (see
    /// [`answer_poll`]).
    AwaitEvent(NodeId),
}

/// The runtime's RPC service: routes outputs and forwards done signals.
pub struct RuntimeService {
    routing_table: RoutingTable,
    done_tx: Sender<NodeId>,
}

impl RuntimeService {
    /// The routing table outputs are delivered through.
    pub closed spec fn spec_routing_table(&self) -> RoutingTable {
        self.routing_table
    }

    /// The sender done signals are forwarded through.
    pub closed spec fn spec_done_sender(&self) -> Sender<NodeId> {
        self.done_tx
    }

    /// The sender done signals are forwarded through.
    pub(crate) fn done_sender(&self) -> (r: &Sender<NodeId>)
        ensures
            *r == self.spec_done_sender(),
    {
        &self.done_tx
    }

    /// Create a new service.
    pub fn new(routing_table: RoutingTable, done_tx: Sender<NodeId>) -> (r: Self)
        ensures
            r.spec_routing_table() == routing_table,
            r.spec_done_sender() == done_tx,
    {
        RuntimeService { routing_table, done_tx }
    }

    /// Handle a single request, and report the sends it made.
    ///
    /// Registration is acknowledged and sends nothing.  Output is delivered
    /// along the routing table and accepted.  A done signal is handed to the
    /// coordinator's channel and acknowledged, or answered with an error
    /// when the coordinator is gone.  A poll for events waits for the next
    /// event of the node.
    pub fn handle(&self, request: RuntimeRequest) -> (r: Reply)
        ensures
            request is Register ==> (r matches Reply::Ready(answer, effect) && answer == Ok::<
                RuntimeResponse,
                RpcError,
            >(RuntimeResponse::Registered) && effect is Nothing),
            request matches RuntimeRequest::NextEvent { node_id } ==> r == Reply::AwaitEvent(
                node_id,
            ),
            request matches RuntimeRequest::SendOutput { node_id, port, data } ==> {
                let matching = self.spec_routing_table().spec_routes().filter(
                    carries(node_id, port),
                );
                &&& r matches Reply::Ready(answer, effect)
                &&& answer == Ok::<RuntimeResponse, RpcError>(RuntimeResponse::OutputAccepted)
                &&& effect matches Effect::Delivered(sent) && sent@.len() == matching.len() && (
                forall|i: int|
                    0 <= i < sent@.len() ==> delivers(
                        self.spec_routing_table().spec_senders(),
                        matching[i],
                        data@,
                        #[trigger] sent@[i],
                    ))
            },
            request matches RuntimeRequest::NodeDone { node_id } ==> {
                &&& r matches Reply::Ready(answer, effect)
                &&& effect matches Effect::Forwarded(s) && s.spec_sender()
                    == self.spec_done_sender() && s.spec_value() == node_id && answer
                    == done_answer(s.spec_accepted())
            },
    {
        match &request {
            RuntimeRequest::Register { .. } => Reply::Ready(
                Ok(RuntimeResponse::Registered),
                Effect::Nothing,
            ),
            RuntimeRequest::NextEvent { node_id } => Reply::AwaitEvent(*node_id),
            RuntimeRequest::SendOutput { node_id, port, data } => {
                let sent = self.routing_table.deliver(*node_id, port, data.as_slice());
                Reply::Ready(Ok(RuntimeResponse::OutputAccepted), Effect::Delivered(sent))
            },
            RuntimeRequest::NodeDone { .. } => {
                let receipt = forward_done(self, &request);
                if receipt.accepted() {
                    Reply::Ready(Ok(RuntimeResponse::DoneAcknowledged), Effect::Forwarded(receipt))
                } else {
                    let message = String::from_str("coordinator channel closed");
                    proof {
                        reveal_strlit("coordinator channel closed");
                    }
                    Reply::Ready(Err(make_server_error(message)), Effect::Forwarded(receipt))
                }
            },
        }
    }
}

} // verus!
