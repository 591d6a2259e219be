//! The router that brings nodes up, introduces them to one another and shuts
//! them down.
use crate::connection::ConnectionRegistry;
use crate::member_node::{MemberNode, MemberNodeDetails};
use crate::message::{Message, MessageView};
use crate::text::{decimal, push_decimal};
use std::collections::HashMap;
use vstd::prelude::*;
use vstd::string::StringExecFns;

verus! {

/// What drives a cluster from outside: it brings nodes up, has one node greet
/// another, and shuts all of them down.
pub trait NodeRequestRouter {
    /// Brings up the first node if none is up yet.
    fn start(&mut self);

    /// Has the node of `from`, brought up if need be, greet the host `to`.
    fn send(&mut self, from: u16, to: u16);

    /// Sends every node that was brought up the message that ends it.
    fn shut_down(&self);
}

/// What brings up the node of a host, on the transport that the node is to use.
pub trait NodeFactory<T: MemberNode, R: ConnectionRegistry> {
    /// Brings up the node of `host`, which is to be reached through `connection`.
    fn create(&self, host: u16, connection: &R) -> T;
}

/// The greeting with which the node of `from` introduces itself.
pub open spec fn greeting(from: u16) -> Seq<char> {
    "hello from "@ + decimal(from as nat)
}

/// The message with which the node of `from`, whose details are `details`,
/// introduces itself.
pub fn hello(details: MemberNodeDetails, from: u16) -> (message: Message)
    ensures
        message@ == MessageView::Request(details@, greeting(from)),
{
    let mut text = String::from_str("hello from ");
    push_decimal(&mut text, from);
    Message::Request(details, text)
}

/// A router that keeps the nodes it brought up by host, gets them from a
/// factory and reaches them through a registry of connections.
pub struct DefaultNodeRequestRouter<T: MemberNode, F: NodeFactory<T, R>, R: ConnectionRegistry> {
    routes: HashMap<u16, T>,
    connection_factory: R,
    node_factory: F,
}

impl<T: MemberNode, F: NodeFactory<T, R>, R: ConnectionRegistry> DefaultNodeRequestRouter<T, F, R> {
    /// The hosts whose nodes the router has brought up.
    pub closed spec fn hosts(&self) -> Set<u16> {
        self.routes@.dom()
    }

    /// A router that has brought up no node yet.
    pub fn new(node_factory: F, connection_registry: R) -> (router: Box<
        DefaultNodeRequestRouter<T, F, R>,
    >)
        ensures
            router.hosts() == Set::<u16>::empty(),
    {
        Box::new(
            DefaultNodeRequestRouter {
                routes: HashMap::new(),
                connection_factory: connection_registry,
                node_factory,
            },
        )
    }

    /// Brings up the node of `host` and keeps it.
    fn add_node(&mut self, host: u16)
        ensures
            final(self).hosts() == old(self).hosts().insert(host),
    {
        let node = self.node_factory.create(host, &self.connection_factory);
        self.routes.insert(host, node);
    }
}

impl<T: MemberNode, F: NodeFactory<T, R>, R: ConnectionRegistry> NodeRequestRouter for DefaultNodeRequestRouter<
    T,
    F,
    R,
> {
    fn start(&mut self)
        ensures
            final(self).hosts() == if old(self).hosts() == Set::<u16>::empty() {
                set![1u16]
            } else {
                old(self).hosts()
            },
    {
        if self.routes.is_empty() {
            self.add_node(1);
        }
    }

    fn send(&mut self, from: u16, to: u16)
        ensures
            final(self).hosts() == old(self).hosts().insert(from),
    {
        if !self.routes.contains_key(&from) {
            self.add_node(from);
        }
        let from_node_details = self.routes.get(&from).unwrap().serialize_host_details();
        self.connection_factory.send_to(to, hello(from_node_details, from));
    }

    fn shut_down(&self) {
        for node in it: self.routes.values() {
            self.connection_factory.send_to(node.host(), Message::Shutdown());
        }
    }
}

} // verus!
