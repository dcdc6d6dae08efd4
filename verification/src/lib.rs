//! A Multi-Paxos consensus core: clients, proposers, acceptors and learners
//! agree on an ordered sequence of values, one per Paxos instance.
//!
//! The library holds the protocol state machines and their proofs. Each role
//! consumes one message at a time through its handlers and hands back the
//! messages it wants sent, together with the group they are addressed to;
//! the surrounding process owns the transport and the receive loop.
use vstd::prelude::*;

pub mod acceptor;
pub mod client;
pub mod learner;
pub mod message;
pub mod node_id;
pub mod proposer;

verus! {

/// Implement this trait if you are a process which needs to run in an
/// infinite loop, while receiving and sending messages.
pub trait Runnable {
    fn run(&mut self);
}

} // verus!
