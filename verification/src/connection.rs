//! The transport as nodes see it: a registry of the connections of hosts,
//! through which every message between nodes goes.
use crate::message::Message;
use std::collections::HashMap;
use std::sync::mpsc::Sender;
use vstd::prelude::*;

verus! {

/// `std::sync::mpsc::Sender`, the sending half of a channel. A registry keeps
/// one for each host and hands messages to it; nothing is read from it.
#[verifier::external_type_specification]
#[verifier::external_body]
#[verifier::reject_recursive_types(T)]
pub struct ExSender<T>(Sender<T>);

/// `std::sync::mpsc::Sender::send`, which never blocks, with the `Ok` that it
/// returns turned into `true` and the `Err` with which it hands the message back
/// once the receiving half is gone into `false`. Which of the two comes depends
/// on the receiver, so nothing is claimed of the result.
#[verifier::external_body]
fn enqueue(connection: &Sender<Message>, message: Message) -> (accepted: bool) {
    connection.send(message).is_ok()
}

/// What became of a message that was handed to a registry.
#[derive(Clone, Copy, PartialEq, Eq, Debug, Structural)]
pub enum Delivery {
    /// The connection of the host took the message.
    Enqueued,
    /// The host has a connection, but nobody receives from it any more.
    Rejected,
    /// No connection is registered for the host.
    Unknown,
}

/// What nodes and routers need of a transport: to send a message to a host, and
/// to register and withdraw the connection of a host.
pub trait ConnectionRegistry: Send {
    /// Sends `message` to `host` if it can, and drops it if it cannot.
    fn send_to(&self, host: u16, message: Message);

    /// Registers `connection` as the one of `host`, in place of any earlier one.
    fn add_connection(&mut self, host: u16, connection: Sender<Message>);

    /// Withdraws the connection of `host`, if it has one.
    fn remove_connection(&mut self, host: u16);
}

/// The connections of the hosts of one process, by host.
pub struct ConnectionFactory {
    connection: HashMap<u16, Sender<Message>>,
}

impl View for ConnectionFactory {
    type V = Map<u16, Sender<Message>>;

    closed spec fn view(&self) -> Map<u16, Sender<Message>> {
        self.connection@
    }
}

impl ConnectionFactory {
    /// A registry without connections.
    pub fn new() -> (registry: ConnectionFactory)
        ensures
            registry@ == Map::<u16, Sender<Message>>::empty(),
    {
        ConnectionFactory { connection: HashMap::new() }
    }

    /// The connection of `host`, if it has one.
    pub fn get_connection_for(&self, host: u16) -> (connection: Option<&Sender<Message>>)
        ensures
            match connection {
                Some(connection) => self@.contains_key(host) && *connection == self@[host],
                None => !self@.contains_key(host),
            },
    {
        self.connection.get(&host)
    }

    /// Hands `message` to the connection of `host`, and says what became of it.
    /// A message for a host without a connection goes nowhere.
    pub fn deliver(&self, host: u16, message: Message) -> (delivery: Delivery)
        ensures
            delivery == Delivery::Unknown <==> !self@.contains_key(host),
    {
        match self.connection.get(&host) {
            Some(c) => {
                if enqueue(c, message) {
                    Delivery::Enqueued
                } else {
                    Delivery::Rejected
                }
            },
            None => Delivery::Unknown,
        }
    }
}

impl ConnectionRegistry for ConnectionFactory {
    fn send_to(&self, host: u16, message: Message) {
        let _ = self.deliver(host, message);
    }

    fn add_connection(&mut self, host: u16, connection: Sender<Message>)
        ensures
            final(self)@ == old(self)@.insert(host, connection),
    {
        self.connection.insert(host, connection);
    }

    fn remove_connection(&mut self, host: u16)
        ensures
            final(self)@ == old(self)@.remove(host),
    {
        self.connection.remove(&host);
    }
}

} // verus!
