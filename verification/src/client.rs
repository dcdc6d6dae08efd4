//! The client role: a thin producer which submits one proposal value at a
//! time to the proposer group.
use vstd::prelude::*;

use crate::message::{Group, Message, Outbound, Request};
use crate::node_id::fresh_uuid;

verus! {

/// The struct representing the client in the Paxos algorithm.
pub struct Client {
    /// The process-wide unique identifier of this client.
    pub uuid: u128,

    /// A small integer id, unique at least among the clients.
    pub id: usize,
}

impl Client {
    /// Builds a client with a freshly drawn unique identifier.
    pub fn new(id: usize) -> (c: Client)
        ensures
            c.id == id,
    {
        Client { uuid: fresh_uuid(), id }
    }

    /// Builds the Request message carrying `value`, addressed to the proposer
    /// group. The client does not await a reply.
    pub fn request(&self, value: u64) -> (out: Outbound)
        ensures
            out.group == Group::Proposers,
            out.message == Message::Phase0a(Request { value, sender_uuid: self.uuid }),
    {
        Outbound {
            group: Group::Proposers,
            message: Message::Phase0a(Request { value, sender_uuid: self.uuid }),
        }
    }
}

} // verus!
