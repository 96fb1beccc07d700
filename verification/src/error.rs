//! The crate's error type.

use vstd::prelude::*;

use comp_cat_rs::collapse::free_category::FreeCategoryError;
use tarpc_cat::error::Error as RpcError;

use crate::graph::{node_id_text, NodeId, OutputPort};

verus! {

/// `std::io::Error`, carried by [`Error::Io`].
#[verifier::external_type_specification]
#[verifier::external_body]
pub struct ExIoError(std::io::Error);

/// The RPC layer's error, carried by [`Error::Rpc`].
#[verifier::external_type_specification]
#[verifier::external_body]
pub struct ExRpcError(RpcError);

/// The free-category layer's error, carried by [`Error::FreeCategory`].
#[verifier::external_type_specification]
#[verifier::external_body]
pub struct ExFreeCategoryError(FreeCategoryError);

/// All errors of the dataflow runtime.
#[derive(Debug)]
pub enum Error {
    /// Network or file I/O error.
    Io(std::io::Error),
    /// RPC communication error with the runtime.
    Rpc(RpcError),
    /// Free category operation error (graph structure).
    FreeCategory(FreeCategoryError),
    /// A node with this identifier already exists in the graph.
    DuplicateNode {
        /// The duplicate node identifier.
        node_id: NodeId,
    },
    /// No node with this identifier exists in the graph.
    NodeNotFound {
        /// The missing node identifier.
        node_id: NodeId,
    },
    /// No output port with this name exists on the node.
    PortNotFound {
        /// The node that was searched.
        node_id: NodeId,
        /// The missing port.
        port: OutputPort,
    },
    /// An internal channel was closed unexpectedly.
    ChannelClosed,
    /// The runtime is shutting down.
    Shutdown,
    /// The node's event queue is full (backpressure).
    QueueFull {
        /// The node whose queue is full.
        node_id: NodeId,
    },
    /// A node thread panicked.
    NodePanicked {
        /// The node that panicked.
        node_id: NodeId,
    },
}

/// The error value `tarpc_cat::error::Error::Server { message }`.
pub uninterp spec fn server_error(message: Seq<char>) -> RpcError;

/// Builds `tarpc_cat::error::Error::Server { message }`, the error an RPC
/// server sends back to its client.
#[verifier::external_body]
pub(crate) fn make_server_error(message: String) -> (r: RpcError)
    ensures
        r == server_error(message@),
{
    RpcError::Server { message }
}

/// What the `Display` implementation of `FreeCategoryError` writes for a
/// value: a function of the value alone.
pub uninterp spec fn free_category_message(e: FreeCategoryError) -> Seq<char>;

/// Calls `to_string` on a `FreeCategoryError`, which writes its `Display`
/// text.
#[verifier::external_body]
fn free_category_text(e: &FreeCategoryError) -> (r: String)
    ensures
        r@ == free_category_message(*e),
{
    e.to_string()
}

/// Calls `to_string` on a `std::io::Error`.  Nothing is stated: the text
/// comes from the operating system.
#[verifier::external_body]
fn io_error_text(e: &std::io::Error) -> String {
    e.to_string()
}

/// Calls `to_string` on a `tarpc_cat::error::Error`.  Nothing is stated:
/// for an I/O failure the text comes from the operating system.
#[verifier::external_body]
fn rpc_error_text(e: &RpcError) -> String {
    e.to_string()
}

/// The message of an error of this library's own kinds.
pub open spec fn library_message(e: Error) -> Seq<char> {
    match e {
        Error::DuplicateNode { node_id } => "duplicate node: "@ + node_id_text(node_id),
        Error::NodeNotFound { node_id } => "node not found: "@ + node_id_text(node_id),
        Error::PortNotFound { node_id, port } => "port "@ + port@ + " not found on node "@
            + node_id_text(node_id),
        Error::ChannelClosed => "channel closed"@,
        Error::Shutdown => "runtime shutdown"@,
        Error::QueueFull { node_id } => "queue full for node "@ + node_id_text(node_id),
        Error::NodePanicked { node_id } => "node "@ + node_id_text(node_id) + " panicked"@,
        _ => Seq::empty(),
    }
}

/// The message of an error whose wrapped error, if any, reads `inner`:
/// a prefix naming the layer followed by `inner` for a wrapped error, the
/// library's own message otherwise.
pub open spec fn message(e: Error, inner: Seq<char>) -> Seq<char> {
    match e {
        Error::Io(_) => "I/O error: "@ + inner,
        Error::Rpc(_) => "RPC error: "@ + inner,
        Error::FreeCategory(_) => "graph error: "@ + inner,
        _ => library_message(e),
    }
}

/// The error another error wraps, if any: its underlying cause.
pub enum ErrorSource<'a> {
    /// A wrapped I/O error.
    Io(&'a std::io::Error),
    /// A wrapped RPC error.
    Rpc(&'a RpcError),
    /// A wrapped free-category error.
    FreeCategory(&'a FreeCategoryError),
}

impl Error {
    /// The message of the error, given the text of the error it wraps (the
    /// text is not used for the library's own kinds of error).
    pub fn message_with(&self, inner: &str) -> (r: String)
        ensures
            r@ == message(*self, inner@),
    {
        match self {
            Error::Io(_) => String::from_str("I/O error: ").concat(inner),
            Error::Rpc(_) => String::from_str("RPC error: ").concat(inner),
            Error::FreeCategory(_) => String::from_str("graph error: ").concat(inner),
            Error::DuplicateNode { node_id } => String::from_str("duplicate node: ").concat(
                node_id.to_string().as_str(),
            ),
            Error::NodeNotFound { node_id } => String::from_str("node not found: ").concat(
                node_id.to_string().as_str(),
            ),
            Error::PortNotFound { node_id, port } => String::from_str("port ").concat(
                port.name(),
            ).concat(" not found on node ").concat(node_id.to_string().as_str()),
            Error::ChannelClosed => String::from_str("channel closed"),
            Error::Shutdown => String::from_str("runtime shutdown"),
            Error::QueueFull { node_id } => String::from_str("queue full for node ").concat(
                node_id.to_string().as_str(),
            ),
            Error::NodePanicked { node_id } => String::from_str("node ").concat(
                node_id.to_string().as_str(),
            ).concat(" panicked"),
        }
    }

    /// The human-readable message of the error.  The text of a wrapped I/O
    /// or RPC error is not stated: it comes from the operating system.
    pub fn to_string(&self) -> (r: String)
        ensures
            exists|inner: Seq<char>| r@ == #[trigger] message(*self, inner),
            *self matches Error::FreeCategory(e) ==> r@ == message(*self, free_category_message(e)),
            !(self is Io || self is Rpc || self is FreeCategory) ==> r@ == library_message(*self),
    {
        let inner = match self {
            Error::Io(e) => io_error_text(e),
            Error::Rpc(e) => rpc_error_text(e),
            Error::FreeCategory(e) => free_category_text(e),
            _ => String::new(),
        };
        let r = self.message_with(inner.as_str());
        assert(r@ == message(*self, inner@));
        r
    }

    /// The error this one wraps, if any: the I/O, RPC or free-category
    /// error it carries.
    pub fn source(&self) -> (r: Option<ErrorSource<'_>>)
        ensures
            match *self {
                Error::Io(e) => r == Some(ErrorSource::Io(&e)),
                Error::Rpc(e) => r == Some(ErrorSource::Rpc(&e)),
                Error::FreeCategory(e) => r == Some(ErrorSource::FreeCategory(&e)),
                _ => r is None,
            },
    {
        match self {
            Error::Io(e) => Some(ErrorSource::Io(e)),
            Error::Rpc(e) => Some(ErrorSource::Rpc(e)),
            Error::FreeCategory(e) => Some(ErrorSource::FreeCategory(e)),
            _ => None,
        }
    }
}

/// Converts an error of the runtime into the RPC error sent back to a
/// client: a server error carrying the error's message.
impl From<Error> for RpcError {
    fn from(e: Error) -> (r: Self)
        ensures
            exists|inner: Seq<char>| r == server_error(#[trigger] message(e, inner)),
            e matches Error::FreeCategory(x) ==> r == server_error(
                message(e, free_category_message(x)),
            ),
            !(e is Io || e is Rpc || e is FreeCategory) ==> r == server_error(library_message(e)),
    {
        make_server_error(e.to_string())
    }
}

impl vstd::std_specs::convert::FromSpecImpl<Error> for RpcError {
    /// The message of a wrapped I/O or RPC error is not known, so the
    /// conversion is not a function of the value in general.
    open spec fn obeys_from_spec() -> bool {
        false
    }

    open spec fn from_spec(e: Error) -> Self {
        server_error(library_message(e))
    }
}

impl From<std::io::Error> for Error {
    fn from(e: std::io::Error) -> (r: Self) {
        Error::Io(e)
    }
}

impl vstd::std_specs::convert::FromSpecImpl<std::io::Error> for Error {
    open spec fn obeys_from_spec() -> bool {
        true
    }

    open spec fn from_spec(e: std::io::Error) -> Self {
        Error::Io(e)
    }
}

impl From<RpcError> for Error {
    fn from(e: RpcError) -> (r: Self) {
        Error::Rpc(e)
    }
}

impl vstd::std_specs::convert::FromSpecImpl<RpcError> for Error {
    open spec fn obeys_from_spec() -> bool {
        true
    }

    open spec fn from_spec(e: RpcError) -> Self {
        Error::Rpc(e)
    }
}

impl From<FreeCategoryError> for Error {
    fn from(e: FreeCategoryError) -> (r: Self) {
        Error::FreeCategory(e)
    }
}

impl vstd::std_specs::convert::FromSpecImpl<FreeCategoryError> for Error {
    open spec fn obeys_from_spec() -> bool {
        true
    }

    open spec fn from_spec(e: FreeCategoryError) -> Self {
        Error::FreeCategory(e)
    }
}

} // verus!
