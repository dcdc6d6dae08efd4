//! The acceptor role: holds the per-instance promise/vote state and answers
//! preparations and proposals.
use vstd::prelude::*;

use std::collections::HashMap;

use crate::message::{Fault, Group, Message, Outbound, Preparation, Promise, Proposal, Acceptance};
use crate::node_id::fresh_uuid;

verus! {

broadcast use vstd::std_specs::hash::group_hash_axioms;

/// The per-instance record of a single acceptor: one value of this type per
/// instance of the basic Paxos algorithm the acceptor participates in.
#[derive(Clone, Copy, PartialEq, Eq, Structural, Debug)]
pub struct AcceptorState {
    /// The highest-numbered round the acceptor has participated in, that is,
    /// answered with a Promise. Initially 0.
    pub rnd: usize,

    /// The highest-numbered round in which the acceptor has cast a vote, that
    /// is, answered with an Acceptance. Initially 0.
    pub v_rnd: usize,

    /// The value voted by the acceptor in round v_rnd. Initially unset.
    pub v_val: Option<u64>,
}

impl AcceptorState {
    /// The record an instance holds before any message has named it.
    pub open spec fn initial() -> AcceptorState {
        AcceptorState { rnd: 0, v_rnd: 0, v_val: None }
    }

    /// The record's standing invariant: the round of the standing vote never
    /// exceeds the highest round participated in — casting a vote counts as
    /// participation.
    pub open spec fn wf(self) -> bool {
        self.v_rnd <= self.rnd
    }
}

impl Default for AcceptorState {
    fn default() -> (s: Self)
        ensures
            s == AcceptorState::initial(),
    {
        AcceptorState { rnd: 0, v_rnd: 0, v_val: None }
    }
}

/// The record after a Preparation carrying `c_rnd` has been handled: the
/// acceptor promises the round exactly when it is higher than any round it
/// has participated in.
pub open spec fn state_after_preparation(st: AcceptorState, c_rnd: usize) -> AcceptorState {
    if c_rnd > st.rnd {
        AcceptorState { rnd: c_rnd, v_rnd: st.v_rnd, v_val: st.v_val }
    } else {
        st
    }
}

/// The record after a Proposal carrying `(c_rnd, c_val)` has been handled:
/// the acceptor votes exactly when the round is at least as high as any round
/// it has participated in. An accept at the very round the acceptor just
/// promised is valid, hence `>=` where the promise takes `>`. Casting the
/// vote also counts as participation: the participation round rises to the
/// accepted round, so the vote round never exceeds it, and no later proposal
/// from a round below the vote can overwrite the vote.
pub open spec fn state_after_proposal(st: AcceptorState, c_rnd: usize, c_val: u64) -> AcceptorState {
    if c_rnd >= st.rnd {
        AcceptorState { rnd: c_rnd, v_rnd: c_rnd, v_val: Some(c_val) }
    } else {
        st
    }
}

/// The struct representing the acceptor in the Paxos algorithm.
pub struct Acceptor {
    /// The process-wide unique identifier of this acceptor.
    pub uuid: u128,

    /// A small integer id, unique at least among the acceptors.
    pub id: usize,

    /// A map from each instance of the basic Paxos algorithm to the record the
    /// acceptor keeps for it. Records are created lazily: an instance that the
    /// map does not name yet holds the initial record.
    pub acceptor_states: HashMap<usize, AcceptorState>,
}

impl Acceptor {
    /// The record this acceptor holds for `instance`, the initial one while no
    /// message has touched the instance.
    pub open spec fn state_of(self, instance: usize) -> AcceptorState {
        if self.acceptor_states@.contains_key(instance) {
            self.acceptor_states@[instance]
        } else {
            AcceptorState::initial()
        }
    }

    /// How one handled message may change this acceptor: its identity stays,
    /// the named instance steps, and every other instance stays as it was.
    pub open spec fn only_instance_steps(pre: Acceptor, post: Acceptor, instance: usize, st: AcceptorState) -> bool {
        &&& post.uuid == pre.uuid
        &&& post.id == pre.id
        &&& post.state_of(instance) == st
        &&& forall|i: usize| i != instance ==> post.state_of(i) == pre.state_of(i)
    }

    /// The acceptor's standing invariant: every per-instance record is well
    /// formed.
    pub open spec fn wf(self) -> bool {
        forall|i: usize| (#[trigger] self.state_of(i)).wf()
    }

    /// Builds an acceptor with a freshly drawn unique identifier and no
    /// per-instance records yet.
    pub fn new(id: usize) -> (a: Acceptor)
        ensures
            a.wf(),
            a.id == id,
            forall|i: usize| a.state_of(i) == AcceptorState::initial(),
    {
        Acceptor { uuid: fresh_uuid(), id, acceptor_states: HashMap::new() }
    }

    /// A copy of the record this acceptor holds for `instance`.
    pub fn state_copy(&self, instance: usize) -> (st: AcceptorState)
        ensures
            st == self.state_of(instance),
    {
        match self.acceptor_states.get(&instance) {
            Some(s) => *s,
            None => AcceptorState { rnd: 0, v_rnd: 0, v_val: None },
        }
    }

    /// What handling a Preparation does: the promise state steps as
    /// `state_after_preparation` says, and a Promise goes back to the sending
    /// proposer exactly when the round was promised.
    pub open spec fn preparation_post(pre: Acceptor, post: Acceptor, p: Preparation, out: Option<Outbound>) -> bool {
        &&& Acceptor::only_instance_steps(pre, post, p.instance, state_after_preparation(pre.state_of(p.instance), p.c_rnd))
        &&& if p.c_rnd > pre.state_of(p.instance).rnd {
            out == Some(Outbound {
                group: Group::Proposers,
                message: Message::Phase1b(Promise {
                    rnd: p.c_rnd,
                    v_rnd: pre.state_of(p.instance).v_rnd,
                    v_val: pre.state_of(p.instance).v_val,
                    sender_uuid: pre.uuid,
                    receiver_uuid: p.sender_uuid,
                    instance: p.instance,
                }),
            })
        } else {
            out is None
        }
    }

    /// Handles the Preparation message sent by a proposer to this acceptor:
    /// promises the round and answers with this instance's vote state when
    /// `c_rnd` is higher than any round participated in, and drops the message
    /// otherwise.
    pub fn handle_preparation(&mut self, preparation: Preparation) -> (out: Option<Outbound>)
        requires
            old(self).wf(),
        ensures
            final(self).wf(),
            Acceptor::preparation_post(*old(self), *final(self), preparation, out),
    {
        let st = self.state_copy(preparation.instance);

        if preparation.c_rnd > st.rnd {
            // The promise.
            let stepped = AcceptorState { rnd: preparation.c_rnd, v_rnd: st.v_rnd, v_val: st.v_val };
            self.acceptor_states.insert(preparation.instance, stepped);

            proof {
                assert forall|i: usize| (#[trigger] self.state_of(i)).wf() by {
                    if i != preparation.instance {
                        assert(self.state_of(i) == old(self).state_of(i));
                    }
                }
            }

            Some(Outbound {
                group: Group::Proposers,
                message: Message::Phase1b(Promise {
                    rnd: preparation.c_rnd,
                    v_rnd: st.v_rnd,
                    v_val: st.v_val,
                    sender_uuid: self.uuid,
                    receiver_uuid: preparation.sender_uuid,
                    instance: preparation.instance,
                }),
            })
        } else {
            None
        }
    }

    /// What handling a Proposal does: a proposal without a value is a protocol
    /// fault and changes nothing; otherwise the vote state steps as
    /// `state_after_proposal` says, and an Acceptance goes back to the sending
    /// proposer exactly when the vote was cast.
    pub open spec fn proposal_post(pre: Acceptor, post: Acceptor, p: Proposal, r: Result<Option<Outbound>, Fault>) -> bool {
        match p.c_val {
            None => {
                &&& r == Result::<Option<Outbound>, Fault>::Err(Fault::ValueMissing)
                &&& post == pre
            },
            Some(cv) => {
                &&& Acceptor::only_instance_steps(pre, post, p.instance, state_after_proposal(pre.state_of(p.instance), p.c_rnd, cv))
                &&& if p.c_rnd >= pre.state_of(p.instance).rnd {
                    r == Result::<Option<Outbound>, Fault>::Ok(Some(Outbound {
                        group: Group::Proposers,
                        message: Message::Phase2b(Acceptance {
                            v_rnd: p.c_rnd,
                            v_val: Some(cv),
                            sender_uuid: pre.uuid,
                            receiver_uuid: p.sender_uuid,
                            instance: p.instance,
                        }),
                    }))
                } else {
                    r == Result::<Option<Outbound>, Fault>::Ok(None::<Outbound>)
                }
            },
        }
    }

    /// Handles the Proposal message sent by a proposer to this acceptor:
    /// casts the vote and answers with an Acceptance when `c_rnd` is at least
    /// as high as any round participated in, and drops the message otherwise.
    /// A proposal carrying no value signals a protocol bug and is surfaced as
    /// a fault.
    pub fn handle_proposal(&mut self, proposal: Proposal) -> (r: Result<Option<Outbound>, Fault>)
        requires
            old(self).wf(),
        ensures
            final(self).wf(),
            Acceptor::proposal_post(*old(self), *final(self), proposal, r),
    {
        let cv = match proposal.c_val {
            Some(cv) => cv,
            None => {
                return Err(Fault::ValueMissing);
            },
        };

        let st = self.state_copy(proposal.instance);

        if proposal.c_rnd >= st.rnd {
            // The vote; casting it also counts as participation, so the
            // participation round rises to the accepted round.
            let stepped = AcceptorState {
                rnd: proposal.c_rnd,
                v_rnd: proposal.c_rnd,
                v_val: Some(cv),
            };
            self.acceptor_states.insert(proposal.instance, stepped);

            proof {
                assert forall|i: usize| (#[trigger] self.state_of(i)).wf() by {
                    if i != proposal.instance {
                        assert(self.state_of(i) == old(self).state_of(i));
                    }
                }
            }

            Ok(Some(Outbound {
                group: Group::Proposers,
                message: Message::Phase2b(Acceptance {
                    v_rnd: proposal.c_rnd,
                    v_val: Some(cv),
                    sender_uuid: self.uuid,
                    receiver_uuid: proposal.sender_uuid,
                    instance: proposal.instance,
                }),
            }))
        } else {
            Ok(None)
        }
    }

    /// One turn of the acceptor's receive loop: Preparations and Proposals
    /// are handled, every other variant is ignored.
    pub fn handle_message(&mut self, m: Message) -> (r: Result<Option<Outbound>, Fault>)
        requires
            old(self).wf(),
        ensures
            final(self).wf(),
            match m {
                Message::Phase1a(p) => r matches Ok(out) && Acceptor::preparation_post(*old(self), *final(self), p, out),
                Message::Phase2a(p) => Acceptor::proposal_post(*old(self), *final(self), p, r),
                _ => *final(self) == *old(self) && r == Result::<Option<Outbound>, Fault>::Ok(None::<Outbound>),
            },
    {
        match m {
            Message::Phase1a(preparation) => Ok(self.handle_preparation(preparation)),
            Message::Phase2a(proposal) => self.handle_proposal(proposal),
            _ => Ok(None),
        }
    }
}

// What an acceptor's per-instance record can do in one handled message.

/// Some handled message takes the record `pre` to the record `post`.
pub open spec fn acceptor_step(pre: AcceptorState, post: AcceptorState) -> bool {
    ||| (exists|c_rnd: usize| post == state_after_preparation(pre, c_rnd))
    ||| (exists|c_rnd: usize, c_val: u64| post == state_after_proposal(pre, c_rnd, c_val))
}

/// Across one handled message, an acceptor's participation round never
/// decreases.
pub proof fn lemma_acceptor_step_rnd_monotonic(pre: AcceptorState, post: AcceptorState)
    requires
        acceptor_step(pre, post),
    ensures
        post.rnd >= pre.rnd,
{
}

/// Across the whole trace of any single acceptor's records for one instance,
/// the participation round is non-decreasing.
pub proof fn lemma_acceptor_trace_rnd_monotonic(tr: Seq<AcceptorState>, j: int, k: int)
    requires
        forall|n: int| 0 <= n < tr.len() - 1 ==> #[trigger] acceptor_step(tr[n], tr[n + 1]),
        0 <= j <= k < tr.len(),
    ensures
        tr[j].rnd <= tr[k].rnd,
    decreases k - j,
{
    if j < k {
        lemma_acceptor_trace_rnd_monotonic(tr, j, k - 1);
        assert(acceptor_step(tr[k - 1], tr[(k - 1) + 1]));
        lemma_acceptor_step_rnd_monotonic(tr[k - 1], tr[k]);
    }
}

/// One handled message keeps a record well formed: the vote round stays at
/// or below the participation round across every preparation and every
/// accepted vote.
pub proof fn lemma_acceptor_step_preserves_wf(pre: AcceptorState, post: AcceptorState)
    requires
        pre.wf(),
        acceptor_step(pre, post),
    ensures
        post.wf(),
{
}

/// Whenever a handled Proposal changes the vote value of a well formed
/// record, the vote round strictly increases. The one family of inputs left
/// out: a Proposal at exactly the standing vote's round but with a different
/// value, which distinct proposers' distinct rounds — one picked value per
/// round — never produce.
pub proof fn lemma_acceptor_vote_monotonic(st: AcceptorState, c_rnd: usize, c_val: u64)
    requires
        st.wf(),
        st.v_val != Some(c_val) ==> c_rnd != st.v_rnd,
    ensures
        state_after_proposal(st, c_rnd, c_val).v_val != st.v_val
            ==> state_after_proposal(st, c_rnd, c_val).v_rnd > st.v_rnd,
{
}

/// Value provenance at the acceptor: a Promise answers with exactly the
/// vote value standing in the record, a Preparation never changes a vote,
/// and an accepted Proposal makes the vote carry exactly the proposal's
/// value — an acceptor never invents a value.
pub proof fn lemma_acceptor_value_provenance(st: AcceptorState, c_rnd: usize, c_val: u64)
    ensures
        state_after_preparation(st, c_rnd).v_val == st.v_val,
        state_after_proposal(st, c_rnd, c_val).v_val == st.v_val || state_after_proposal(
            st,
            c_rnd,
            c_val,
        ).v_val == Some(c_val),
{
}

/// Handling one Preparation twice leaves the record where handling it once
/// left it: the second arrival of a duplicated message is a no-op.
pub proof fn lemma_acceptor_preparation_idempotent(st: AcceptorState, c_rnd: usize)
    ensures
        state_after_preparation(state_after_preparation(st, c_rnd), c_rnd)
            == state_after_preparation(st, c_rnd),
{
}

/// Handling one Proposal twice leaves the record where handling it once left
/// it, and the second vote (when cast) repeats the first: a duplicated
/// Proposal is benign.
pub proof fn lemma_acceptor_proposal_idempotent(st: AcceptorState, c_rnd: usize, c_val: u64)
    ensures
        state_after_proposal(state_after_proposal(st, c_rnd, c_val), c_rnd, c_val)
            == state_after_proposal(st, c_rnd, c_val),
{
}

} // verus!
