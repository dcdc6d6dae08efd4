//! The messages that the roles of the Multi-Paxos algorithm exchange, and the
//! addressing information that tells the transport where each one goes.
//!
//! Peers are identified by a 128-bit universally unique identifier, carried
//! here as a plain `u128`. The agreed-on values travel as `u64`.
use vstd::prelude::*;

use std::collections::HashMap;

verus! {

/// An enum which contains all types of messages which nodes, in the Paxos
/// algorithm, can exchange.
#[derive(Clone, Debug, PartialEq)]
pub enum Message {
    Phase0a(Request),
    Phase0b(CatchUp),
    Phase0c(Report),
    Phase1a(Preparation),
    Phase1b(Promise),
    Phase1c(Nack),
    Phase2a(Proposal),
    Phase2b(Acceptance),
    Phase3(Learning),
}

/// In phase 0, a client sends a proposal to a proposer, which needs to start
/// the Paxos algorithm.
#[derive(Clone, Copy, PartialEq, Eq, Structural, Debug)]
pub struct Request {
    /// The value which nodes need to agree on.
    pub value: u64,

    /// The unique identifier of the sender of this message (which is a client).
    pub sender_uuid: u128,
}

/// When a late-joining proposer or learner starts, it sends this message to
/// the proposers to know about previously executed Paxos instances.
#[derive(Clone, Copy, PartialEq, Eq, Structural, Debug)]
pub struct CatchUp {
    /// The unique identifier of the process which sends this message.
    pub sender_uuid: u128,

    /// 'l' for learner, 'p' for proposer.
    pub sender_type: char,
}

/// The answer message to a CatchUp message.
#[derive(Clone, Debug, PartialEq)]
pub struct Report {
    /// The number of instances previously executed, according to the proposer
    /// that sent this message.
    pub num_of_instances: usize,

    /// A map between the Paxos instance numbers and the associated learned
    /// values, as known by the sending proposer.
    pub learned_values: HashMap<usize, u64>,

    /// The unique identifier of the proposer which sends this message.
    pub sender_uuid: u128,

    /// The unique identifier of the process which asked for this message.
    pub receiver_uuid: u128,
}

/// In phase 1a, c_rnd is sent from one proposer to all acceptors.
#[derive(Clone, Copy, PartialEq, Eq, Structural, Debug)]
pub struct Preparation {
    /// The highest-numbered round the proposer has started.
    pub c_rnd: usize,

    /// The unique identifier of the sender of this message (which is a proposer).
    pub sender_uuid: u128,

    /// The Paxos instance associated with this message.
    pub instance: usize,
}

/// In phase 1b, rnd, v_rnd and v_val are sent from one acceptor to one or more
/// proposers.
#[derive(Clone, Copy, PartialEq, Eq, Structural, Debug)]
pub struct Promise {
    /// The highest-numbered round the acceptor has participated in.
    pub rnd: usize,

    /// The highest-numbered round in which the acceptor has cast a vote;
    /// 0 while no vote has been cast.
    pub v_rnd: usize,

    /// The value voted by the acceptor in round v_rnd; None while no vote has
    /// been cast.
    pub v_val: Option<u64>,

    /// The unique identifier of the sender of this message (which is an acceptor).
    pub sender_uuid: u128,

    /// The unique identifier of the interested receiver of this message (which
    /// is a proposer). It matches the sender of the Preparation being answered.
    pub receiver_uuid: u128,

    pub instance: usize,
}

/// NACKs are optional in Paxos; the variant is reserved and never emitted.
#[derive(Clone, Copy, PartialEq, Eq, Structural, Debug)]
pub struct Nack {
    /// The round which caused the rejection of a c_rnd sent from a proposer to
    /// an acceptor in a Preparation message.
    pub v_rnd: usize,

    /// The unique identifier of the acceptor which rejects the c_rnd.
    pub sender_uuid: u128,

    /// The unique identifier of the proposer to which this message goes.
    pub receiver_uuid: u128,

    pub instance: usize,
}

/// In phase 2a, c_rnd and c_val are sent from one proposer to all acceptors.
#[derive(Clone, Copy, PartialEq, Eq, Structural, Debug)]
pub struct Proposal {
    pub c_rnd: usize,

    /// The value that the proposer has picked for round c_rnd.
    pub c_val: Option<u64>,

    pub sender_uuid: u128,

    pub instance: usize,
}

/// In phase 2b, v_rnd and v_val are sent from one acceptor to one or more
/// proposers.
#[derive(Clone, Copy, PartialEq, Eq, Structural, Debug)]
pub struct Acceptance {
    pub v_rnd: usize,

    pub v_val: Option<u64>,

    pub sender_uuid: u128,

    /// It matches the sender of the Proposal being answered.
    pub receiver_uuid: u128,

    pub instance: usize,
}

/// In phase 3, the proposers send the decided value to the learners.
#[derive(Clone, Copy, PartialEq, Eq, Structural, Debug)]
pub struct Learning {
    pub learned_value: u64,

    pub sender_uuid: u128,

    pub instance: usize,
}

/// One of the three role groups a message can be addressed to. The transport
/// maps each group to its shared group address.
#[derive(Clone, Copy, PartialEq, Eq, Structural, Debug)]
pub enum Group {
    Proposers,
    Acceptors,
    Learners,
}

/// A message that a role asks the transport to send, together with the role
/// group it is addressed to.
#[derive(Clone, Debug, PartialEq)]
pub struct Outbound {
    pub group: Group,
    pub message: Message,
}

/// A protocol invariant that a handler found violated. Each variant signals a
/// bug in the protocol or a corrupted message stream, never an ordinary
/// runtime condition; the surrounding process is expected to abort on it.
#[derive(Clone, Copy, PartialEq, Eq, Structural, Debug)]
pub enum Fault {
    /// An Acceptance or a Proposal arrived whose value field was unset.
    ValueMissing,
    /// A proposer or a learner recorded two different learned values for one
    /// instance.
    LearnedConflict,
    /// At decide time the accepted value differed from the value the proposer
    /// had picked for the round.
    DecisionMismatch,
}

} // verus!
