//! The node of an execution context: registered once, then dispatched into
//! for every invocation.

use crate::channel::{ReceiveChannelHalf, SendChannelHalf};
use crate::host::Host;
use crate::status::OakError;
use crate::Handle;
use vstd::prelude::*;

verus! {

/// The application logic that the host invokes.
pub trait OakNode<H: Host> {
    /// Handle one invocation of the method named `method`, reading the request
    /// from `request` and answering on `response`.
    fn invoke(&mut self, host: &mut H, method: &[u8], request: ReceiveChannelHalf, response: SendChannelHalf);
}

/// Why the lifecycle refused a step. Each is fatal to the execution context.
#[derive(Clone, Copy, Debug, PartialEq, Eq, Structural)]
pub enum NodeError {
    /// A node was already registered.
    AlreadySet,
    /// An invocation arrived before any node was registered.
    NoNode,
    /// The invoked method's name could not be read.
    Channel(OakError),
}

/// Outcome of registering a node on a context that `was_set` or not.
pub open spec fn set_node_outcome(was_set: bool) -> Result<(), NodeError> {
    if was_set {
        Err(NodeError::AlreadySet)
    } else {
        Ok(())
    }
}

/// The well-known channels an invocation uses.
#[derive(Clone, Copy, Debug, PartialEq, Eq, Structural)]
pub struct InvocationHandles {
    /// Carries the name of the invoked method.
    pub method: Handle,
    /// Carries the request.
    pub request: Handle,
    /// Carries the response.
    pub response: Handle,
}

/// Holds the one node of an execution context, once it is registered.
pub struct NodeContext<N> {
    node: Option<N>,
}

impl<N> NodeContext<N> {
    /// Whether a node has been registered.
    pub closed spec fn is_set(&self) -> bool {
        self.node is Some
    }

    /// A context with no node yet.
    pub fn new() -> (r: NodeContext<N>)
        ensures
            !r.is_set(),
    {
        NodeContext { node: None }
    }

    /// Whether a node has been registered.
    pub fn has_node(&self) -> (r: bool)
        ensures
            r == self.is_set(),
    {
        self.node.is_some()
    }

    /// Register `node`. Only the first registration of a context succeeds; a
    /// later one fails and leaves the registered node in place.
    pub fn set_node(&mut self, node: N) -> (r: Result<(), NodeError>)
        ensures
            r == set_node_outcome(old(self).is_set()),
            final(self).is_set(),
            old(self).is_set() ==> *final(self) == *old(self),
    {
        if self.node.is_some() {
            Err(NodeError::AlreadySet)
        } else {
            self.node = Some(node);
            Ok(())
        }
    }

    /// Dispatch one invocation: read the method name from its channel and call
    /// the registered node with it and the request and response channels.
    pub fn handle_invocation<H: Host>(&mut self, host: &mut H, channels: InvocationHandles) -> (r: Result<(), NodeError>)
        where
            N: OakNode<H>,
        ensures
            !old(self).is_set() ==> r == Err::<(), NodeError>(NodeError::NoNode),
            old(self).is_set() ==> (r is Ok || r matches Err(NodeError::Channel(_))),
            final(self).is_set() == old(self).is_set(),
    {
        match &mut self.node {
            None => Err(NodeError::NoNode),
            Some(node) => {
                let mut name_channel = ReceiveChannelHalf::new(channels.method);
                let mut name: Vec<u8> = Vec::new();
                let mut attached: Vec<Handle> = Vec::new();
                match name_channel.read_message(host, &mut name, &mut attached) {
                    Err(e) => Err(NodeError::Channel(e)),
                    Ok(()) => {
                        node.invoke(
                            host,
                            name.as_slice(),
                            ReceiveChannelHalf::new(channels.request),
                            SendChannelHalf::new(channels.response),
                        );
                        Ok(())
                    },
                }
            },
        }
    }
}

/// Registration is single-assignment: whatever state a context was in, once
/// `set_node` has returned on it, a second `set_node` on the context it left fails.
pub proof fn lemma_second_registration_fails<N>(before: NodeContext<N>, after: NodeContext<N>, first: Result<(), NodeError>)
    requires
        first == set_node_outcome(before.is_set()),
        after.is_set(),
    ensures
        set_node_outcome(after.is_set()) == Err::<(), NodeError>(NodeError::AlreadySet),
        !before.is_set() ==> first is Ok,
{
}

} // verus!
