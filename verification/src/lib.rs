//! Membership and failure detection for a cluster of nodes, in the style of SWIM.
//!
//! Every node keeps a view of its peers, probes one of them at random on each
//! tick of its prober and escalates a peer that reports itself unavailable from
//! `Alive` over `Suspected` to `Failed`. What a node does on a message is a
//! function from its state and the message to its next state and the messages
//! it sends; the caller delivers them and runs the clock.
pub mod connection;
pub mod member_node;
pub mod message;
pub mod network_router;
pub mod protocol;
mod random;
pub mod text;

use crate::connection::ConnectionRegistry;
use crate::member_node::MemberNode;
use crate::network_router::{DefaultNodeRequestRouter, NodeFactory, NodeRequestRouter};
use vstd::prelude::*;

verus! {

/// Starts a network on the given transport: a router that gets its nodes from
/// `node_factory`, with the first node brought up.
pub fn run_network<T: MemberNode, F: NodeFactory<T, R>, R: ConnectionRegistry>(
    node_factory: F,
    connection_registry: R,
) -> (router: Box<DefaultNodeRequestRouter<T, F, R>>)
    ensures
        router.hosts() == set![1u16],
{
    let mut router = DefaultNodeRequestRouter::new(node_factory, connection_registry);
    router.start();
    router
}

} // verus!
