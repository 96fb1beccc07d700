//! The standard library's multi-producer channels, as the runtime uses them.
//!
//! Every send hands back a [`Sent`] receipt that records which sender the
//! value was handed to and which value it was.  Whether the value arrives is
//! not stated: that depends on whether the receiving end is still alive,
//! which only the running program knows.
//!
//! The raw send is private to this module.  The rest of the library sends
//! in two ways only: [`send_along`] puts the input event of one route of a
//! routing table into the channel of that route's target, and
//! [`forward_done`] hands the node of a done request to a service's
//! coordinator channel.  So no event reaches a node's channel from the
//! library but an input along a route that arrives at that node, and no
//! node reaches the coordinator's channel but one whose done request is
//! being answered.

use std::sync::mpsc::{Receiver, Sender};

use vstd::prelude::*;

use crate::dispatcher::{delivers, RoutingTable};
use crate::event::{Event, RuntimeRequest};
use crate::graph::NodeId;
use crate::service::RuntimeService;

verus! {

/// The sending half of a `std::sync::mpsc` channel.
#[verifier::external_type_specification]
#[verifier::external_body]
#[verifier::reject_recursive_types(T)]
pub struct ExSender<T>(Sender<T>);

/// The receiving half of a `std::sync::mpsc` channel.
#[verifier::external_type_specification]
#[verifier::external_body]
#[verifier::reject_recursive_types(T)]
pub struct ExReceiver<T>(Receiver<T>);

/// The channel an event sender sends into.
pub uninterp spec fn sender_channel(tx: Sender<Event>) -> int;

/// The channel an event receiver takes from.
pub uninterp spec fn receiver_channel(rx: Receiver<Event>) -> int;

/// Calls `std::sync::mpsc::channel`, which makes a new channel and returns
/// its sending and its receiving end.  The contract states that both ends
/// belong to that one channel, and that it is none of the channels of the
/// receivers in `existing`, which are alive when it is made.  `existing` is
/// read by the contract only.
#[verifier::external_body]
pub(crate) fn open_event_channel<K>(existing: &Vec<(K, Receiver<Event>)>) -> (r: (
    Sender<Event>,
    Receiver<Event>,
))
    ensures
        sender_channel(r.0) == receiver_channel(r.1),
        forall|i: int|
            0 <= i < existing@.len() ==> receiver_channel(#[trigger] existing@[i].1)
                != receiver_channel(r.1),
{
    std::sync::mpsc::channel()
}

/// Calls `Sender::clone`, which returns another sender into the same
/// channel, as the contract states.
#[verifier::external_body]
pub(crate) fn clone_event_sender(tx: &Sender<Event>) -> (r: Sender<Event>)
    ensures
        sender_channel(r) == sender_channel(*tx),
{
    tx.clone()
}

/// The receipt of one call of `Sender::send`: the sender the value was
/// handed to, the value, and whether the channel accepted it.
#[verifier::reject_recursive_types(T)]
pub struct Sent<T> {
    accepted: bool,
    sender: Ghost<Sender<T>>,
    value: Ghost<T>,
}

impl<T> Sent<T> {
    /// Whether the channel accepted the value.
    pub closed spec fn spec_accepted(&self) -> bool {
        self.accepted
    }

    /// The sender the value was handed to.
    pub closed spec fn spec_sender(&self) -> Sender<T> {
        self.sender@
    }

    /// The value that was handed over.
    pub closed spec fn spec_value(&self) -> T {
        self.value@
    }

    /// Whether the channel accepted the value, which happens exactly when
    /// its receiving end was still alive.
    pub fn accepted(&self) -> (r: bool)
        ensures
            r == self.spec_accepted(),
    {
        self.accepted
    }
}

/// Calls `Sender::send` with `value` on `tx` and records the call: the
/// receipt names `tx` and `value`.  Whether the value was accepted is
/// recorded but not stated, since it depends on the state of another
/// thread.
#[verifier::external_body]
fn send_value<T>(tx: &Sender<T>, value: T) -> (r: Sent<T>)
    ensures
        r.spec_sender() == *tx,
        r.spec_value() == value,
{
    let sender = Ghost(*tx);
    let sent = Ghost(value);
    Sent { accepted: tx.send(value).is_ok(), sender, value: sent }
}

/// Delivers `data` along route `k` of `table`: the route's input event,
/// on the route's target port and carrying `data`, is sent once to the
/// sender of the route's target vertex.
pub(crate) fn send_along(table: &RoutingTable, k: usize, data: &[u8]) -> (r: Sent<Event>)
    requires
        k < table.spec_routes().len(),
    ensures
        table.spec_routes()[k as int].spec_target() < table.spec_senders().len(),
        delivers(table.spec_senders(), table.spec_routes()[k as int], data@, r),
{
    let (route, tx) = table.route_and_sender(k);
    let event = route.input_event(data);
    send_value(tx, event)
}

/// Hands the node of the done request `request` to the coordinator's
/// channel of `service`, once.
pub(crate) fn forward_done(service: &RuntimeService, request: &RuntimeRequest) -> (r: Sent<
    NodeId,
>)
    requires
        request is NodeDone,
    ensures
        r.spec_sender() == service.spec_done_sender(),
        request matches RuntimeRequest::NodeDone { node_id } && r.spec_value() == node_id,
{
    let node_id = match request {
        RuntimeRequest::Register { node_id } => *node_id,
        RuntimeRequest::NextEvent { node_id } => *node_id,
        RuntimeRequest::SendOutput { node_id, .. } => *node_id,
        RuntimeRequest::NodeDone { node_id } => *node_id,
    };
    send_value(service.done_sender(), node_id)
}

} // verus!
