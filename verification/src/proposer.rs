//! The proposer role: drives Paxos rounds, allocates new instance numbers,
//! tracks per-instance progress, and both answers and issues catch-up.
//!
//! Beside its executable per-instance state the proposer keeps, in ghost
//! form, the `(v_rnd, v_val)` pair of every Promise it has folded into an
//! instance. The proposer-quorum rule — a Proposal carries the client's value
//! when no promise reported a prior vote, and otherwise the vote value paired
//! with the highest reported vote round — is stated and proved over that
//! history.
use vstd::prelude::*;

use std::collections::HashMap;

use crate::message::{
    Acceptance, CatchUp, Fault, Group, Learning, Message, Outbound, Preparation, Promise, Proposal,
    Report, Request,
};
use crate::node_id::fresh_uuid;

verus! {

broadcast use vstd::std_specs::hash::group_hash_axioms;

/// The mathematical value of a proposer's per-instance record.
pub struct ProposerStateView {
    pub value: Option<u64>,
    pub c_rnd: usize,
    pub c_val: Option<u64>,
    pub rnd_received: Seq<usize>,
    pub highest_v_rnd_received: usize,
    pub associated_v_val_received: Option<u64>,
    pub v_rnd_received: Seq<usize>,
    pub promises: Seq<(usize, Option<u64>)>,
}

impl ProposerStateView {
    /// The record an instance holds before any message has named it.
    pub open spec fn initial() -> ProposerStateView {
        ProposerStateView {
            value: None,
            c_rnd: 0,
            c_val: None,
            rnd_received: Seq::empty(),
            highest_v_rnd_received: 0,
            associated_v_val_received: None,
            v_rnd_received: Seq::empty(),
            promises: Seq::empty(),
        }
    }

    /// The record's standing invariant: one recorded round per folded
    /// promise, and the running maximum is exactly the highest vote round
    /// among the folded promises, paired with its reported value.
    pub open spec fn wf(self) -> bool {
        &&& self.rnd_received.len() == self.promises.len()
        &&& forall|j: int|
            0 <= j < self.promises.len() ==> (#[trigger] self.promises[j]).0
                <= self.highest_v_rnd_received
        &&& self.highest_v_rnd_received == 0 ==> self.associated_v_val_received is None
        &&& self.highest_v_rnd_received != 0 ==> exists|j: int|
            0 <= j < self.promises.len() && (#[trigger] self.promises[j]) == (
            self.highest_v_rnd_received,
            self.associated_v_val_received,
            )
    }

    /// The value a Proposal built from this record carries: the client's
    /// value when no folded promise reported a prior vote, and otherwise the
    /// vote value associated with the highest reported vote round.
    pub open spec fn picked_value(self) -> Option<u64> {
        if self.highest_v_rnd_received == 0 {
            self.value
        } else {
            self.associated_v_val_received
        }
    }

    /// The Promise quorum test: at least `majority` rounds recorded and every
    /// one of them equal to the round this proposer started.
    pub open spec fn quorum_all_equal(self, majority: usize) -> bool {
        &&& self.rnd_received.len() >= majority
        &&& forall|j: int|
            0 <= j < self.rnd_received.len() ==> (#[trigger] self.rnd_received[j]) == self.c_rnd
    }

    /// The Acceptance quorum test: at least `majority` vote rounds recorded
    /// and every one of them equal to the round this proposer started.
    pub open spec fn decide_all_equal(self, majority: usize) -> bool {
        &&& self.v_rnd_received.len() >= majority
        &&& forall|j: int|
            0 <= j < self.v_rnd_received.len() ==> (#[trigger] self.v_rnd_received[j]) == self.c_rnd
    }
}

/// The values, of a single proposer, which are associated with one instance
/// of the basic Paxos algorithm. Messages can arrive out of order, so one
/// such record is kept per instance.
pub struct ProposerState {
    /// The value that this proposer initially wants to propose.
    pub value: Option<u64>,

    /// The highest-numbered round the proposer has started.
    pub c_rnd: usize,

    /// The value that the proposer has picked for round c_rnd: its own value,
    /// or one reported by an acceptor in a Promise.
    pub c_val: Option<u64>,

    /// The rnd fields of the Promises received for this instance. A Proposal
    /// goes out once a majority has been received and every recorded rnd
    /// equals c_rnd.
    pub rnd_received: Vec<usize>,

    /// The highest v_rnd reported by any Promise received for this instance.
    pub highest_v_rnd_received: usize,

    /// The v_val associated with highest_v_rnd_received; unset while no
    /// Promise has reported a cast vote.
    pub associated_v_val_received: Option<u64>,

    /// The v_rnd fields of the Acceptances received for this instance. A
    /// Learning goes out once a majority has been received and every recorded
    /// v_rnd equals c_rnd.
    pub v_rnd_received: Vec<usize>,

    /// The (v_rnd, v_val) pair of every Promise folded into this record, in
    /// arrival order.
    pub promises: Ghost<Seq<(usize, Option<u64>)>>,
}

impl View for ProposerState {
    type V = ProposerStateView;

    open spec fn view(&self) -> ProposerStateView {
        ProposerStateView {
            value: self.value,
            c_rnd: self.c_rnd,
            c_val: self.c_val,
            rnd_received: self.rnd_received@,
            highest_v_rnd_received: self.highest_v_rnd_received,
            associated_v_val_received: self.associated_v_val_received,
            v_rnd_received: self.v_rnd_received@,
            promises: self.promises@,
        }
    }
}

impl Default for ProposerState {
    fn default() -> (s: Self)
        ensures
            s@ == ProposerStateView::initial(),
    {
        let s = ProposerState {
            value: None,
            c_rnd: 0,
            c_val: None,
            rnd_received: Vec::new(),
            highest_v_rnd_received: 0,
            associated_v_val_received: None,
            v_rnd_received: Vec::new(),
            promises: Ghost(Seq::empty()),
        };
        s
    }
}

/// The struct representing the proposer in the Paxos algorithm.
pub struct Proposer {
    /// The process-wide unique identifier of this proposer.
    pub uuid: u128,

    /// A small integer id, unique at least among the proposers; it biases the
    /// round numbers this proposer starts.
    pub id: usize,

    /// A map from each instance of the basic Paxos algorithm to the record
    /// this proposer keeps for it. Records are created lazily.
    pub proposer_states: HashMap<usize, ProposerState>,

    /// One more than half the acceptor count: the quorum size.
    pub majority_of_acceptors: usize,

    /// The number of instances this proposer has initiated or learned about
    /// through a Report.
    pub num_of_instances: usize,

    /// A map between instances and the associated learned values, kept so
    /// that CatchUp messages can be answered.
    pub learned_values: HashMap<usize, u64>,
}

impl Proposer {
    /// The record this proposer holds for `instance`, the initial one while
    /// no message has touched the instance.
    pub open spec fn state_view(self, instance: usize) -> ProposerStateView {
        if self.proposer_states@.contains_key(instance) {
            self.proposer_states@[instance]@
        } else {
            ProposerStateView::initial()
        }
    }

    /// The proposer's standing invariant: every per-instance record is
    /// well formed, and the quorum size is positive.
    pub open spec fn wf(self) -> bool {
        &&& self.majority_of_acceptors >= 1
        &&& forall|i: usize| (#[trigger] self.state_view(i)).wf()
    }

    /// The proposer's identity and quorum size never change.
    pub open spec fn fixed_unchanged(pre: Proposer, post: Proposer) -> bool {
        &&& post.uuid == pre.uuid
        &&& post.id == pre.id
        &&& post.majority_of_acceptors == pre.majority_of_acceptors
    }

    /// Builds a proposer with a freshly drawn unique identifier, no
    /// per-instance records, no learned values, and the quorum size computed
    /// from the given acceptor count.
    pub fn new(id: usize, num_of_acceptors: usize) -> (p: Proposer)
        ensures
            p.wf(),
            p.id == id,
            p.majority_of_acceptors == num_of_acceptors / 2 + 1,
            p.num_of_instances == 0,
            p.learned_values@ == Map::<usize, u64>::empty(),
            forall|i: usize| p.state_view(i) == ProposerStateView::initial(),
    {
        Proposer {
            uuid: fresh_uuid(),
            id,
            proposer_states: HashMap::new(),
            majority_of_acceptors: num_of_acceptors / 2 + 1,
            num_of_instances: 0,
            learned_values: HashMap::new(),
        }
    }

    /// Removes this proposer's record for `instance` from the map, handing
    /// back the initial record when the instance has none yet.
    fn take_state(&mut self, instance: usize) -> (st: ProposerState)
        ensures
            st@ == old(self).state_view(instance),
            final(self).proposer_states@ == old(self).proposer_states@.remove(instance),
            Proposer::fixed_unchanged(*old(self), *final(self)),
            final(self).num_of_instances == old(self).num_of_instances,
            final(self).learned_values@ == old(self).learned_values@,
    {
        match self.proposer_states.remove(&instance) {
            Some(s) => s,
            None => {
                proof {
                    assert(self.proposer_states@ =~= old(self).proposer_states@.remove(instance));
                }
                ProposerState::default()
            },
        }
    }

    /// A newly instantiated proposer can catch up with the current state of
    /// the other proposers by sending them this CatchUp message.
    pub fn catch_up(&self) -> (out: Outbound)
        ensures
            out.group == Group::Proposers,
            out.message == Message::Phase0b(CatchUp { sender_uuid: self.uuid, sender_type: 'p' }),
    {
        Outbound {
            group: Group::Proposers,
            message: Message::Phase0b(CatchUp { sender_uuid: self.uuid, sender_type: 'p' }),
        }
    }

    /// Builds the Report message answering a CatchUp: this proposer's
    /// instance count and learned values, addressed to the requesting process
    /// and sent to the learner group when a learner asked, else to the
    /// proposer group.
    pub fn report(&self, sender_uid: u128, sender_type: char) -> (out: Outbound)
        ensures
            out.group == (if sender_type == 'l' {
                Group::Learners
            } else {
                Group::Proposers
            }),
            out.message matches Message::Phase0c(r) && r.num_of_instances == self.num_of_instances
                && r.learned_values@ == self.learned_values@ && r.sender_uuid == self.uuid
                && r.receiver_uuid == sender_uid,
    {
        let m = Message::Phase0c(Report {
            num_of_instances: self.num_of_instances,
            learned_values: self.learned_values.clone(),
            sender_uuid: self.uuid,
            receiver_uuid: sender_uid,
        });

        let group = if sender_type == 'l' {
            Group::Learners
        } else {
            Group::Proposers
        };

        Outbound { group, message: m }
    }

    /// The machine bound under which a new instance can be started: the
    /// instance counter and the biased round computed for the new instance
    /// both fit in a word.
    pub open spec fn can_start_spec(self) -> bool {
        &&& self.num_of_instances < usize::MAX
        &&& self.state_view((self.num_of_instances + 1) as usize).c_rnd < usize::MAX
        &&& (self.state_view((self.num_of_instances + 1) as usize).c_rnd + 1) * self.id
            <= usize::MAX
    }

    /// Whether a new instance can be started without the instance counter or
    /// the biased round number overflowing a word.
    pub fn can_start_instance(&self) -> (b: bool)
        ensures
            b == self.can_start_spec(),
    {
        if self.num_of_instances == usize::MAX {
            return false;
        }

        let c0 = match self.proposer_states.get(&(self.num_of_instances + 1)) {
            Some(s) => s.c_rnd,
            None => 0,
        };

        if c0 == usize::MAX {
            return false;
        }

        if self.id == 0 {
            return true;
        }

        let q = usize::MAX / self.id;
        let fits = c0 + 1 <= q;

        proof {
            let c1 = c0 + 1;
            let d = self.id as int;
            vstd::arithmetic::div_mod::lemma_fundamental_div_mod(usize::MAX as int, d);
            if fits {
                vstd::arithmetic::mul::lemma_mul_inequality(c1 as int, usize::MAX as int / d, d);
            } else {
                vstd::arithmetic::mul::lemma_mul_inequality(
                    usize::MAX as int / d + 1,
                    c1 as int,
                    d,
                );
                vstd::arithmetic::mul::lemma_mul_is_distributive_add_other_way(
                    d,
                    usize::MAX as int / d,
                    1,
                );
            }
        }

        fits
    }

    /// What starting an instance for a requested value does: the instance
    /// counter steps, the new instance's record takes the value and the
    /// biased round `(c_rnd + 1) * id`, and a Preparation carrying that round
    /// goes to the acceptor group.
    pub open spec fn request_post(pre: Proposer, post: Proposer, value: u64, out: Outbound) -> bool {
        let i = (pre.num_of_instances + 1) as usize;
        let st0 = pre.state_view(i);
        let st1 = post.state_view(i);
        &&& Proposer::fixed_unchanged(pre, post)
        &&& post.num_of_instances == pre.num_of_instances + 1
        &&& post.learned_values@ == pre.learned_values@
        &&& forall|j: usize| j != i ==> post.state_view(j) == pre.state_view(j)
        &&& st1.value == Some(value)
        &&& st1.c_rnd == (st0.c_rnd + 1) * pre.id
        &&& st1.c_val == st0.c_val
        &&& st1.rnd_received == st0.rnd_received
        &&& st1.highest_v_rnd_received == st0.highest_v_rnd_received
        &&& st1.associated_v_val_received == st0.associated_v_val_received
        &&& st1.v_rnd_received == st0.v_rnd_received
        &&& st1.promises == st0.promises
        &&& out == (Outbound {
            group: Group::Acceptors,
            message: Message::Phase1a(Preparation {
                c_rnd: st1.c_rnd,
                sender_uuid: pre.uuid,
                instance: i,
            }),
        })
    }

    /// Starts a new instance of the basic Paxos algorithm for `value` and
    /// builds the Preparation message for the acceptor group.
    fn prepare(&mut self, value: u64) -> (out: Outbound)
        requires
            old(self).wf(),
            old(self).can_start_spec(),
        ensures
            final(self).wf(),
            Proposer::request_post(*old(self), *final(self), value, out),
    {
        // Every time this runs, a new instance of the basic Paxos algorithm
        // is started.
        self.num_of_instances = self.num_of_instances + 1;

        let i = self.num_of_instances;
        let mut st = self.take_state(i);

        st.value = Some(value);

        // Bias the round by this proposer's id, so that rounds started by
        // distinct proposers stay distinguishable.
        st.c_rnd = (st.c_rnd + 1) * self.id;

        let out = Outbound {
            group: Group::Acceptors,
            message: Message::Phase1a(Preparation {
                c_rnd: st.c_rnd,
                sender_uuid: self.uuid,
                instance: i,
            }),
        };

        self.proposer_states.insert(i, st);

        proof {
            lemma_state_view_updated(*old(self), *self, i, st@);
        }

        out
    }

    /// Handles the Request message sent by a client to this proposer: starts
    /// a new instance for the requested value.
    pub fn handle_request(&mut self, request: Request) -> (out: Outbound)
        requires
            old(self).wf(),
            old(self).can_start_spec(),
        ensures
            final(self).wf(),
            Proposer::request_post(*old(self), *final(self), request.value, out),
    {
        self.prepare(request.value)
    }

    /// Handles a CatchUp message: a CatchUp this proposer sent itself is
    /// dropped; any other is answered with a Report addressed to its sender.
    pub fn handle_catch_up(&self, catch_up: CatchUp) -> (out: Option<Outbound>)
        ensures
            catch_up.sender_uuid == self.uuid ==> out is None,
            catch_up.sender_uuid != self.uuid ==> (out matches Some(o) && {
                &&& o.group == (if catch_up.sender_type == 'l' {
                    Group::Learners
                } else {
                    Group::Proposers
                })
                &&& o.message matches Message::Phase0c(r) && r.num_of_instances
                    == self.num_of_instances && r.learned_values@ == self.learned_values@
                    && r.sender_uuid == self.uuid && r.receiver_uuid == catch_up.sender_uuid
            }),
    {
        if catch_up.sender_uuid != self.uuid {
            Some(self.report(catch_up.sender_uuid, catch_up.sender_type))
        } else {
            None
        }
    }

    /// Handles the Report message sent by another proposer: a Report
    /// addressed to this proposer replaces its instance counter and learned
    /// values (the latest Report wins; Reports converge); any other Report is
    /// ignored.
    pub fn handle_report(&mut self, report: Report)
        requires
            old(self).wf(),
        ensures
            final(self).wf(),
            Proposer::fixed_unchanged(*old(self), *final(self)),
            forall|j: usize| #[trigger] final(self).state_view(j) == old(self).state_view(j),
            report.receiver_uuid == old(self).uuid ==> final(self).num_of_instances
                == report.num_of_instances && final(self).learned_values@
                == report.learned_values@,
            report.receiver_uuid != old(self).uuid ==> final(self).num_of_instances == old(
                self,
            ).num_of_instances && final(self).learned_values@ == old(self).learned_values@,
    {
        if report.receiver_uuid == self.uuid {
            self.num_of_instances = report.num_of_instances;
            self.learned_values = report.learned_values;
        }

        proof {
            assert forall|i: usize| (#[trigger] self.state_view(i)).wf() by {
                assert(self.state_view(i) == old(self).state_view(i));
            }
        }
    }

    /// What folding one Promise into an instance does: the promise's rnd and
    /// its (v_rnd, v_val) pair are recorded and the running maximum is
    /// updated; once a majority of recorded rnd all equal c_rnd, the proposal
    /// value is picked — the client's value when no folded promise reported a
    /// prior vote, else the value of the highest reported vote — and a
    /// Proposal goes to the acceptor group.
    pub open spec fn promise_post(
        pre: Proposer,
        post: Proposer,
        rnd: usize,
        v_rnd: usize,
        v_val: Option<u64>,
        instance: usize,
        out: Option<Outbound>,
    ) -> bool {
        let st0 = pre.state_view(instance);
        let st1 = post.state_view(instance);
        &&& Proposer::fixed_unchanged(pre, post)
        &&& post.num_of_instances == pre.num_of_instances
        &&& post.learned_values@ == pre.learned_values@
        &&& forall|j: usize| j != instance ==> post.state_view(j) == pre.state_view(j)
        &&& st1.value == st0.value
        &&& st1.c_rnd == st0.c_rnd
        &&& st1.v_rnd_received == st0.v_rnd_received
        &&& st1.rnd_received == st0.rnd_received.push(rnd)
        &&& st1.promises == st0.promises.push((v_rnd, v_val))
        &&& st1.highest_v_rnd_received == (if v_rnd > st0.highest_v_rnd_received {
            v_rnd
        } else {
            st0.highest_v_rnd_received
        })
        &&& st1.associated_v_val_received == (if v_rnd > st0.highest_v_rnd_received {
            v_val
        } else {
            st0.associated_v_val_received
        })
        &&& if st1.quorum_all_equal(pre.majority_of_acceptors) {
            &&& st1.c_val == st1.picked_value()
            &&& out == Some(Outbound {
                group: Group::Acceptors,
                message: Message::Phase2a(Proposal {
                    c_rnd: st1.c_rnd,
                    c_val: st1.picked_value(),
                    sender_uuid: pre.uuid,
                    instance,
                }),
            })
        } else {
            st1.c_val == st0.c_val && out is None
        }
    }

    /// Folds a Promise into its instance and builds the Proposal message once
    /// enough Promise messages have been received.
    fn propose(&mut self, rnd: usize, v_rnd: usize, v_val: Option<u64>, instance: usize) -> (out:
        Option<Outbound>)
        requires
            old(self).wf(),
        ensures
            final(self).wf(),
            Proposer::promise_post(*old(self), *final(self), rnd, v_rnd, v_val, instance, out),
    {
        let mut st = self.take_state(instance);

        st.rnd_received.push(rnd);
        st.promises = Ghost(st.promises@.push((v_rnd, v_val)));

        // Keep track of the highest v_rnd (and the associated v_val) reported
        // by any of the acceptors.
        if v_rnd > st.highest_v_rnd_received {
            st.highest_v_rnd_received = v_rnd;
            st.associated_v_val_received = v_val;
        }

        proof {
            let st0 = old(self).state_view(instance);
            let st1 = st@;
            assert(st0.wf());
            assert forall|j: int| 0 <= j < st1.promises.len() implies (#[trigger] st1.promises[j]).0
                <= st1.highest_v_rnd_received by {
                if j < st0.promises.len() {
                    assert(st1.promises[j] == st0.promises[j]);
                }
            }
            if st1.highest_v_rnd_received != 0 {
                if v_rnd > st0.highest_v_rnd_received {
                    assert(st1.promises[st1.promises.len() - 1] == (
                        st1.highest_v_rnd_received,
                        st1.associated_v_val_received,
                    ));
                } else {
                    let j0 = choose|j: int|
                        0 <= j < st0.promises.len() && (#[trigger] st0.promises[j]) == (
                        st0.highest_v_rnd_received,
                        st0.associated_v_val_received,
                        );
                    assert(st1.promises[j0] == (
                        st1.highest_v_rnd_received,
                        st1.associated_v_val_received,
                    ));
                }
            }
            assert(st1.wf());
        }

        if st.rnd_received.len() < self.majority_of_acceptors {
            self.proposer_states.insert(instance, st);
            proof {
                lemma_state_view_updated(*old(self), *self, instance, st@);
            }
            return None;
        }

        // To proceed, every rnd received must equal the c_rnd of this
        // instance: a mixed quorum means a concurrent proposer moved the
        // instance past this round, and this proposer does not retry.
        let all_equal = all_rounds_equal(&st.rnd_received, st.c_rnd);

        let out = if all_equal {
            // No acceptor has voted in this instance yet: use the value the
            // client requested; otherwise use the value of the highest vote.
            if st.highest_v_rnd_received == 0 {
                st.c_val = st.value;
            } else {
                st.c_val = st.associated_v_val_received;
            }

            Some(Outbound {
                group: Group::Acceptors,
                message: Message::Phase2a(Proposal {
                    c_rnd: st.c_rnd,
                    c_val: st.c_val,
                    sender_uuid: self.uuid,
                    instance,
                }),
            })
        } else {
            None
        };

        self.proposer_states.insert(instance, st);

        proof {
            lemma_state_view_updated(*old(self), *self, instance, st@);
        }

        out
    }

    /// Handles the Promise message sent by an acceptor: a Promise addressed
    /// to this proposer is folded into its instance; any other is ignored.
    pub fn handle_promise(&mut self, promise: Promise) -> (out: Option<Outbound>)
        requires
            old(self).wf(),
        ensures
            final(self).wf(),
            promise.receiver_uuid != old(self).uuid ==> *final(self) == *old(self) && out is None,
            promise.receiver_uuid == old(self).uuid ==> Proposer::promise_post(
                *old(self),
                *final(self),
                promise.rnd,
                promise.v_rnd,
                promise.v_val,
                promise.instance,
                out,
            ),
    {
        if promise.receiver_uuid == self.uuid {
            self.propose(promise.rnd, promise.v_rnd, promise.v_val, promise.instance)
        } else {
            None
        }
    }

    /// What folding one Acceptance into an instance does: the acceptance's
    /// v_rnd is recorded; once a majority has been received the value is
    /// recorded as learned — two different learned values for one instance
    /// are a protocol fault — and once every recorded v_rnd equals c_rnd a
    /// Learning goes to the learner group, after the check that the accepted
    /// value is the one this proposer picked.
    pub open spec fn acceptance_post(
        pre: Proposer,
        post: Proposer,
        v_rnd: usize,
        v_val: u64,
        instance: usize,
        r: Result<Option<Outbound>, Fault>,
    ) -> bool {
        let st0 = pre.state_view(instance);
        let st1 = post.state_view(instance);
        &&& Proposer::fixed_unchanged(pre, post)
        &&& post.num_of_instances == pre.num_of_instances
        &&& forall|j: usize| j != instance ==> post.state_view(j) == pre.state_view(j)
        &&& st1.value == st0.value
        &&& st1.c_rnd == st0.c_rnd
        &&& st1.c_val == st0.c_val
        &&& st1.rnd_received == st0.rnd_received
        &&& st1.highest_v_rnd_received == st0.highest_v_rnd_received
        &&& st1.associated_v_val_received == st0.associated_v_val_received
        &&& st1.promises == st0.promises
        &&& st1.v_rnd_received == st0.v_rnd_received.push(v_rnd)
        &&& if st1.v_rnd_received.len() < pre.majority_of_acceptors {
            &&& post.learned_values@ == pre.learned_values@
            &&& r == Result::<Option<Outbound>, Fault>::Ok(None::<Outbound>)
        } else if pre.learned_values@.contains_key(instance) && pre.learned_values@[instance]
            != v_val {
            &&& post.learned_values@ == pre.learned_values@
            &&& r == Result::<Option<Outbound>, Fault>::Err(Fault::LearnedConflict)
        } else {
            &&& post.learned_values@ == pre.learned_values@.insert(instance, v_val)
            &&& if st1.decide_all_equal(pre.majority_of_acceptors) {
                if st1.c_val == Some(v_val) {
                    r == Result::<Option<Outbound>, Fault>::Ok(Some(Outbound {
                        group: Group::Learners,
                        message: Message::Phase3(Learning {
                            learned_value: v_val,
                            sender_uuid: pre.uuid,
                            instance,
                        }),
                    }))
                } else {
                    r == Result::<Option<Outbound>, Fault>::Err(Fault::DecisionMismatch)
                }
            } else {
                r == Result::<Option<Outbound>, Fault>::Ok(None::<Outbound>)
            }
        }
    }

    /// Folds an Acceptance into its instance, records the learned value once
    /// a majority has voted, and builds the Learning message once every vote
    /// round matches.
    fn decide(&mut self, v_rnd: usize, v_val: u64, instance: usize) -> (r: Result<
        Option<Outbound>,
        Fault,
    >)
        requires
            old(self).wf(),
        ensures
            final(self).wf(),
            Proposer::acceptance_post(*old(self), *final(self), v_rnd, v_val, instance, r),
    {
        let mut st = self.take_state(instance);

        st.v_rnd_received.push(v_rnd);

        proof {
            let st0 = old(self).state_view(instance);
            let st1 = st@;
            assert(st0.wf());
            if st1.highest_v_rnd_received != 0 {
                let j0 = choose|j: int|
                    0 <= j < st0.promises.len() && (#[trigger] st0.promises[j]) == (
                    st0.highest_v_rnd_received,
                    st0.associated_v_val_received,
                    );
                assert(st1.promises[j0] == (
                    st1.highest_v_rnd_received,
                    st1.associated_v_val_received,
                ));
            }
            assert(st1.wf());
        }

        if st.v_rnd_received.len() < self.majority_of_acceptors {
            self.proposer_states.insert(instance, st);
            proof {
                lemma_state_view_updated(*old(self), *self, instance, st@);
            }
            return Ok(None);
        }

        // Keep the learned value so CatchUp messages can be answered. This
        // happens whether or not a Learning goes out below: a majority has
        // voted for the value, so learners need to know it.
        match self.learned_values.get(&instance) {
            Some(v) => {
                if *v != v_val {
                    self.proposer_states.insert(instance, st);
                    proof {
                        lemma_state_view_updated(*old(self), *self, instance, st@);
                    }
                    return Err(Fault::LearnedConflict);
                }
            },
            None => {},
        }

        self.learned_values.insert(instance, v_val);

        let all_equal = all_rounds_equal(&st.v_rnd_received, st.c_rnd);

        let r = if all_equal {
            let matches_picked = match st.c_val {
                Some(cv) => cv == v_val,
                None => false,
            };

            if matches_picked {
                Ok(Some(Outbound {
                    group: Group::Learners,
                    message: Message::Phase3(Learning {
                        learned_value: v_val,
                        sender_uuid: self.uuid,
                        instance,
                    }),
                }))
            } else {
                Err(Fault::DecisionMismatch)
            }
        } else {
            Ok(None)
        };

        self.proposer_states.insert(instance, st);

        proof {
            lemma_state_view_updated(*old(self), *self, instance, st@);
        }

        r
    }

    /// Handles the Acceptance message sent by an acceptor. Acceptances carry
    /// no honored receiver filter: every proposer that receives one records
    /// it for the named instance. An Acceptance without a value signals a
    /// protocol bug and is surfaced as a fault.
    pub fn handle_acceptance(&mut self, acceptance: Acceptance) -> (r: Result<
        Option<Outbound>,
        Fault,
    >)
        requires
            old(self).wf(),
        ensures
            final(self).wf(),
            match acceptance.v_val {
                None => *final(self) == *old(self) && r == Result::<Option<Outbound>, Fault>::Err(
                    Fault::ValueMissing,
                ),
                Some(v) => Proposer::acceptance_post(
                    *old(self),
                    *final(self),
                    acceptance.v_rnd,
                    v,
                    acceptance.instance,
                    r,
                ),
            },
    {
        match acceptance.v_val {
            Some(v) => self.decide(acceptance.v_rnd, v, acceptance.instance),
            None => Err(Fault::ValueMissing),
        }
    }

    /// One turn of the proposer's receive loop: Requests, CatchUps, Reports,
    /// Promises and Acceptances are handled, every other variant is ignored.
    pub fn handle_message(&mut self, m: Message) -> (r: Result<Option<Outbound>, Fault>)
        requires
            old(self).wf(),
            m matches Message::Phase0a(_) ==> old(self).can_start_spec(),
        ensures
            final(self).wf(),
            match m {
                Message::Phase0a(request) => r matches Ok(out) && (out matches Some(o)
                    && Proposer::request_post(*old(self), *final(self), request.value, o)),
                Message::Phase0b(catch_up) => *final(self) == *old(self) && (r matches Ok(out) && {
                    &&& catch_up.sender_uuid == old(self).uuid ==> out is None
                    &&& catch_up.sender_uuid != old(self).uuid ==> (out matches Some(o) && {
                        &&& o.group == (if catch_up.sender_type == 'l' {
                            Group::Learners
                        } else {
                            Group::Proposers
                        })
                        &&& o.message matches Message::Phase0c(rep) && rep.num_of_instances == old(
                            self,
                        ).num_of_instances && rep.learned_values@ == old(self).learned_values@
                            && rep.sender_uuid == old(self).uuid && rep.receiver_uuid
                            == catch_up.sender_uuid
                    })
                }),
                Message::Phase0c(report) => r matches Ok(out) && out is None && {
                    &&& Proposer::fixed_unchanged(*old(self), *final(self))
                    &&& forall|j: usize| #[trigger]
                        final(self).state_view(j) == old(self).state_view(j)
                    &&& report.receiver_uuid == old(self).uuid ==> final(self).num_of_instances
                        == report.num_of_instances && final(self).learned_values@
                        == report.learned_values@
                    &&& report.receiver_uuid != old(self).uuid ==> final(self).num_of_instances
                        == old(self).num_of_instances && final(self).learned_values@ == old(
                        self,
                    ).learned_values@
                },
                Message::Phase1b(promise) => r matches Ok(out) && {
                    &&& promise.receiver_uuid != old(self).uuid ==> *final(self) == *old(self)
                        && out is None
                    &&& promise.receiver_uuid == old(self).uuid ==> Proposer::promise_post(
                        *old(self),
                        *final(self),
                        promise.rnd,
                        promise.v_rnd,
                        promise.v_val,
                        promise.instance,
                        out,
                    )
                },
                Message::Phase2b(acceptance) => match acceptance.v_val {
                    None => *final(self) == *old(self) && r == Result::<
                        Option<Outbound>,
                        Fault,
                    >::Err(Fault::ValueMissing),
                    Some(v) => Proposer::acceptance_post(
                        *old(self),
                        *final(self),
                        acceptance.v_rnd,
                        v,
                        acceptance.instance,
                        r,
                    ),
                },
                _ => *final(self) == *old(self) && r == Result::<Option<Outbound>, Fault>::Ok(
                    None::<Outbound>,
                ),
            },
    {
        match m {
            Message::Phase0a(request) => Ok(Some(self.handle_request(request))),
            Message::Phase0b(catch_up) => Ok(self.handle_catch_up(catch_up)),
            Message::Phase0c(report) => {
                self.handle_report(report);
                Ok(None)
            },
            Message::Phase1b(promise) => Ok(self.handle_promise(promise)),
            Message::Phase2b(acceptance) => self.handle_acceptance(acceptance),
            _ => Ok(None),
        }
    }

    /// The value this proposer has recorded as learned for `instance`, if
    /// any.
    pub fn learned_value(&self, instance: usize) -> (r: Option<u64>)
        ensures
            match r {
                Some(v) => self.learned_values@.contains_pair(instance, v),
                None => !self.learned_values@.contains_key(instance),
            },
    {
        match self.learned_values.get(&instance) {
            Some(v) => Some(*v),
            None => None,
        }
    }
}

/// A proposer whose records were well formed stays well formed when one
/// instance's record is replaced by a well formed one and every other record
/// keeps its value.
proof fn lemma_state_view_updated(
    pre: Proposer,
    post: Proposer,
    instance: usize,
    stv: ProposerStateView,
)
    requires
        pre.wf(),
        post.majority_of_acceptors == pre.majority_of_acceptors,
        stv.wf(),
        post.state_view(instance) == stv,
        forall|j: usize| j != instance ==> post.state_view(j) == pre.state_view(j),
    ensures
        post.wf(),
{
    assert forall|i: usize| (#[trigger] post.state_view(i)).wf() by {
        if i != instance {
            assert(post.state_view(i) == pre.state_view(i));
            assert(pre.state_view(i).wf());
        }
    }
}

/// Whether every round recorded in `v` equals `expected`.
fn all_rounds_equal(v: &Vec<usize>, expected: usize) -> (b: bool)
    ensures
        b == (forall|j: int| 0 <= j < v@.len() ==> (#[trigger] v@[j]) == expected),
{
    let mut idx: usize = 0;

    while idx < v.len()
        invariant
            0 <= idx <= v@.len(),
            forall|j: int| 0 <= j < idx ==> (#[trigger] v@[j]) == expected,
        decreases v@.len() - idx,
    {
        if v[idx] != expected {
            return false;
        }
        idx = idx + 1;
    }

    true
}

/// Value provenance at the proposer, phase 2a: a Proposal sent after a
/// Promise quorum carries either the value the client requested for the
/// instance or a vote value reported by one of the folded Promises — the
/// proposer never invents a value.
pub proof fn lemma_proposer_proposal_value(
    pre: Proposer,
    post: Proposer,
    rnd: usize,
    v_rnd: usize,
    v_val: Option<u64>,
    instance: usize,
    o: Outbound,
)
    requires
        post.wf(),
        Proposer::promise_post(pre, post, rnd, v_rnd, v_val, instance, Some(o)),
    ensures
        o.message matches Message::Phase2a(pr) && (pr.c_val == post.state_view(instance).value
            || exists|j: int|
            0 <= j < post.state_view(instance).promises.len() && (#[trigger] post.state_view(
                instance,
            ).promises[j]).1 == pr.c_val),
{
    let st1 = post.state_view(instance);
    assert(st1.wf());
    lemma_proposer_quorum_rule(st1);
    if st1.highest_v_rnd_received != 0 {
        let j = choose|j: int|
            0 <= j < st1.promises.len() && (#[trigger] st1.promises[j]) == (
            st1.highest_v_rnd_received,
            st1.picked_value(),
            );
        assert(st1.promises[j].1 == st1.picked_value());
    }
}

/// Value provenance at the proposer, phase 3: a Learning carries exactly the
/// vote value of the Acceptance quorum being answered, and a newly recorded
/// learned value is exactly that vote value.
pub proof fn lemma_proposer_learning_value(
    pre: Proposer,
    post: Proposer,
    v_rnd: usize,
    v_val: u64,
    instance: usize,
    r: Result<Option<Outbound>, Fault>,
)
    requires
        Proposer::acceptance_post(pre, post, v_rnd, v_val, instance, r),
    ensures
        r matches Ok(Some(o)) ==> (o.message matches Message::Phase3(l) && l.learned_value
            == v_val),
        forall|i: usize| #[trigger]
            post.learned_values@.contains_key(i) ==> pre.learned_values@.contains_key(i) || (i
                == instance && post.learned_values@[i] == v_val),
{
}

/// The proposer-quorum rule at the moment of sending: a Proposal built by
/// folding a Promise carries the round this proposer started, went out only
/// on a full all-equal Promise quorum, and carries the client's value when no
/// folded promise reported a prior vote, else the vote value paired with the
/// highest vote round among all folded promises.
pub proof fn lemma_proposer_sent_proposal_quorum_rule(
    pre: Proposer,
    post: Proposer,
    rnd: usize,
    v_rnd: usize,
    v_val: Option<u64>,
    instance: usize,
    o: Outbound,
)
    requires
        post.wf(),
        Proposer::promise_post(pre, post, rnd, v_rnd, v_val, instance, Some(o)),
    ensures
        post.state_view(instance).quorum_all_equal(pre.majority_of_acceptors),
        o.message matches Message::Phase2a(pr) && ({
            let st = post.state_view(instance);
            &&& pr.instance == instance
            &&& pr.c_rnd == st.c_rnd
            &&& pr.c_val == st.picked_value()
            &&& st.highest_v_rnd_received == 0 ==> pr.c_val == st.value && (forall|j: int|
                0 <= j < st.promises.len() ==> (#[trigger] st.promises[j]).0 == 0)
            &&& st.highest_v_rnd_received != 0 ==> (forall|j: int|
                0 <= j < st.promises.len() ==> (#[trigger] st.promises[j]).0
                    <= st.highest_v_rnd_received) && (exists|j: int|
                0 <= j < st.promises.len() && (#[trigger] st.promises[j]) == (
                st.highest_v_rnd_received,
                pr.c_val,
                ))
        }),
{
    let st = post.state_view(instance);
    assert(st.wf());
    lemma_proposer_quorum_rule(st);
}

/// Replaying a Promise that already completed a quorum re-sends the very
/// same Proposal: the duplicated message pushes the quorum past its
/// threshold again, the picked value does not move, and neither the instance
/// counter nor the learned values change.
pub proof fn lemma_proposer_promise_replay(
    pre: Proposer,
    mid: Proposer,
    post: Proposer,
    rnd: usize,
    v_rnd: usize,
    v_val: Option<u64>,
    instance: usize,
    o1: Outbound,
    out2: Option<Outbound>,
)
    requires
        Proposer::promise_post(pre, mid, rnd, v_rnd, v_val, instance, Some(o1)),
        Proposer::promise_post(mid, post, rnd, v_rnd, v_val, instance, out2),
    ensures
        out2 == Some(o1),
        post.num_of_instances == pre.num_of_instances,
        post.learned_values@ == pre.learned_values@,
{
    let st1 = mid.state_view(instance);
    let st2 = post.state_view(instance);

    // The replayed rnd is the one just recorded, so it equals c_rnd like the
    // rest of the quorum.
    assert(st1.rnd_received[st1.rnd_received.len() - 1] == rnd);
    assert(rnd == st1.c_rnd);

    assert forall|j: int| 0 <= j < st2.rnd_received.len() implies (#[trigger] st2.rnd_received[j])
        == st2.c_rnd by {
        if j < st1.rnd_received.len() {
            assert(st2.rnd_received[j] == st1.rnd_received[j]);
        }
    }

    // The replayed (v_rnd, v_val) pair was already folded in, so the running
    // maximum and its value do not move.
    assert(st2.highest_v_rnd_received == st1.highest_v_rnd_received);
    assert(st2.picked_value() == st1.picked_value());
    assert(st2.quorum_all_equal(mid.majority_of_acceptors));
}

/// Replaying an Acceptance that already completed a quorum re-sends the very
/// same Learning: the learned value is re-recorded unchanged and the
/// decision does not move.
pub proof fn lemma_proposer_acceptance_replay(
    pre: Proposer,
    mid: Proposer,
    post: Proposer,
    v_rnd: usize,
    v_val: u64,
    instance: usize,
    o1: Outbound,
    r2: Result<Option<Outbound>, Fault>,
)
    requires
        Proposer::acceptance_post(pre, mid, v_rnd, v_val, instance, Result::<
            Option<Outbound>,
            Fault,
        >::Ok(Some(o1))),
        Proposer::acceptance_post(mid, post, v_rnd, v_val, instance, r2),
    ensures
        r2 == Result::<Option<Outbound>, Fault>::Ok(Some(o1)),
        post.num_of_instances == pre.num_of_instances,
        post.learned_values@ == mid.learned_values@,
{
    let st1 = mid.state_view(instance);
    let st2 = post.state_view(instance);

    // The replayed v_rnd is the one just recorded, so it equals c_rnd like
    // the rest of the quorum.
    assert(st1.v_rnd_received[st1.v_rnd_received.len() - 1] == v_rnd);
    assert(v_rnd == st1.c_rnd);

    assert forall|j: int| 0 <= j < st2.v_rnd_received.len() implies (#[trigger] st2.v_rnd_received[j])
        == st2.c_rnd by {
        if j < st1.v_rnd_received.len() {
            assert(st2.v_rnd_received[j] == st1.v_rnd_received[j]);
        }
    }

    assert(st2.decide_all_equal(mid.majority_of_acceptors));
    assert(mid.learned_values@.contains_key(instance) && mid.learned_values@[instance] == v_val);
    assert(post.learned_values@ =~= mid.learned_values@);
}

/// The proposer-quorum rule, over the recorded promise history of a well
/// formed per-instance record: when no folded promise reported a prior vote
/// the picked value is the client's; otherwise every folded promise's vote
/// round is at most the running maximum, and the picked value is the value
/// some folded promise paired with exactly that maximum.
pub proof fn lemma_proposer_quorum_rule(st: ProposerStateView)
    requires
        st.wf(),
    ensures
        st.highest_v_rnd_received == 0 ==> st.picked_value() == st.value && forall|j: int|
            0 <= j < st.promises.len() ==> (#[trigger] st.promises[j]).0 == 0,
        st.highest_v_rnd_received != 0 ==> (forall|j: int|
            0 <= j < st.promises.len() ==> (#[trigger] st.promises[j]).0
                <= st.highest_v_rnd_received) && exists|j: int|
            0 <= j < st.promises.len() && (#[trigger] st.promises[j]) == (
            st.highest_v_rnd_received,
            st.picked_value(),
            ),
{
}

} // verus!
