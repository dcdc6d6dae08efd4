//! The learner role: on startup catches up from the proposers, then records
//! learned values and emits them in instance order.
//!
//! Beside its executable state the learner carries two ghost histories: every
//! `(instance, value)` pair it has consumed from a Learning or a Report, and
//! every pair it has emitted, in emission order. The library's statements
//! about delivery — total order, provenance, agreement between learners — are
//! phrased and proved over those histories.
use vstd::prelude::*;

use std::collections::HashMap;

use crate::message::{CatchUp, Fault, Group, Learning, Message, Outbound, Report};
use crate::node_id::fresh_uuid;

verus! {

broadcast use vstd::std_specs::hash::group_hash_axioms, vstd::seq_lib::lemma_seq_contains_after_push;

/// The struct representing the learner in the Paxos algorithm.
pub struct Learner {
    /// The process-wide unique identifier of this learner.
    pub uuid: u128,

    /// A small integer id, unique at least among the learners.
    pub id: usize,

    /// A map between instance numbers and the learned value of that instance.
    pub learned_values: HashMap<usize, u64>,

    /// The smallest instance whose value has not been emitted yet; starts
    /// at 1. Values are emitted in instance order, so this also counts the
    /// emitted values.
    pub num_of_instances: usize,

    /// Every `(instance, value)` pair this learner has consumed, from
    /// Learnings and from Reports.
    pub heard: Ghost<Seq<(usize, u64)>>,

    /// Every `(instance, value)` pair this learner has emitted, in order.
    pub delivered: Ghost<Seq<(usize, u64)>>,
}

impl Learner {
    /// The learner's standing invariant, up to the point where pending values
    /// have been emitted: emitted values are the instances 1, 2, ... in order,
    /// and everything recorded or emitted was consumed from some message.
    pub open spec fn inv(self) -> bool {
        &&& self.num_of_instances >= 1
        &&& self.delivered@.len() == self.num_of_instances - 1
        &&& forall|j: int|
            0 <= j < self.delivered@.len() ==> (#[trigger] self.delivered@[j]).0 as int == j + 1
        &&& forall|j: int|
            0 <= j < self.delivered@.len() ==> self.heard@.contains(#[trigger] self.delivered@[j])
        &&& forall|i: usize| #[trigger]
            self.learned_values@.contains_key(i) ==> self.heard@.contains(
                (i, self.learned_values@[i]),
            )
    }

    /// The learner's invariant between handled messages: `inv`, and no value
    /// is pending — whatever could be emitted has been.
    pub open spec fn wf(self) -> bool {
        &&& self.inv()
        &&& self.num_of_instances < usize::MAX ==> !self.learned_values@.contains_key(
            self.num_of_instances,
        )
    }

    /// How one handled message extends the emitted history: `out` values are
    /// appended, each paired with the next instance number in turn, and each
    /// is the value the final state records for its instance.
    pub open spec fn emits(pre: Learner, post: Learner, out: Seq<u64>) -> bool {
        &&& post.num_of_instances == pre.num_of_instances + out.len()
        &&& post.delivered@ == pre.delivered@ + Seq::new(
            out.len(),
            |j: int| (((pre.num_of_instances + j) as usize, out[j])),
        )
        &&& forall|j: int|
            0 <= j < out.len() ==> post.learned_values@.contains_key(
                #[trigger] ((pre.num_of_instances + j) as usize),
            ) && out[j] == post.learned_values@[(pre.num_of_instances + j) as usize]
    }

    /// What handling a Learning does: the pair is recorded and consumed,
    /// whatever became ready is emitted, a contradicting Learning is a fault
    /// that changes nothing, and a replayed Learning changes nothing and
    /// emits nothing.
    pub open spec fn learning_post(
        pre: Learner,
        post: Learner,
        learning: Learning,
        r: Result<Vec<u64>, Fault>,
    ) -> bool {
        match r {
            Err(f) => {
                &&& f == Fault::LearnedConflict
                &&& post == pre
                &&& pre.learned_values@.contains_key(learning.instance)
                &&& pre.learned_values@[learning.instance] != learning.learned_value
            },
            Ok(out) => {
                &&& pre.learned_values@.contains_key(learning.instance)
                    ==> pre.learned_values@[learning.instance] == learning.learned_value
                &&& post.learned_values@ == pre.learned_values@.insert(
                    learning.instance,
                    learning.learned_value,
                )
                &&& post.heard@ == pre.heard@.push((learning.instance, learning.learned_value))
                &&& Learner::emits(pre, post, out@)
                &&& pre.learned_values@.contains_pair(learning.instance, learning.learned_value)
                    ==> out@.len() == 0 && post.learned_values@ == pre.learned_values@
                    && post.num_of_instances == pre.num_of_instances
            },
        }
    }

    /// What handling a Report does: a Report addressed elsewhere is ignored;
    /// one addressed to this learner has its values merged, report's value
    /// winning, its pairs consumed, and whatever became ready emitted. A
    /// replayed Report changes nothing and emits nothing.
    pub open spec fn report_post(pre: Learner, post: Learner, report: Report, out: Vec<u64>) -> bool {
        &&& report.receiver_uuid != pre.uuid ==> post == pre && out@.len() == 0
        &&& report.receiver_uuid == pre.uuid ==> {
            &&& post.learned_values@ == pre.learned_values@.union_prefer_right(
                report.learned_values@,
            )
            &&& forall|p: (usize, u64)|
                post.heard@.contains(p) <==> pre.heard@.contains(p)
                    || report.learned_values@.contains_pair(p.0, p.1)
            &&& Learner::emits(pre, post, out@)
        }
        &&& report.receiver_uuid == pre.uuid && (forall|k: usize| #[trigger]
            report.learned_values@.contains_key(k) ==> pre.learned_values@.contains_pair(
                k,
                report.learned_values@[k],
            )) ==> out@.len() == 0 && post.learned_values@ == pre.learned_values@
            && post.num_of_instances == pre.num_of_instances
    }

    /// Builds a learner with a freshly drawn unique identifier, no learned
    /// values, and instance 1 as the next to emit.
    pub fn new(id: usize) -> (l: Learner)
        ensures
            l.wf(),
            l.id == id,
            l.learned_values@ == Map::<usize, u64>::empty(),
            l.num_of_instances == 1,
            l.heard@ == Seq::<(usize, u64)>::empty(),
            l.delivered@ == Seq::<(usize, u64)>::empty(),
    {
        Learner {
            uuid: fresh_uuid(),
            id,
            learned_values: HashMap::new(),
            num_of_instances: 1,
            heard: Ghost(Seq::empty()),
            delivered: Ghost(Seq::empty()),
        }
    }

    /// Builds the CatchUp message by which a late-joining learner asks the
    /// proposer group about previously executed instances.
    pub fn catch_up(&self) -> (out: Outbound)
        ensures
            out.group == Group::Proposers,
            out.message == Message::Phase0b(CatchUp { sender_uuid: self.uuid, sender_type: 'l' }),
    {
        Outbound {
            group: Group::Proposers,
            message: Message::Phase0b(CatchUp { sender_uuid: self.uuid, sender_type: 'l' }),
        }
    }

    /// Emits the learned values that can be emitted already, that is, the
    /// unbroken run of recorded instances starting at `num_of_instances`, in
    /// instance order.
    fn deliver(&mut self) -> (out: Vec<u64>)
        requires
            old(self).inv(),
        ensures
            final(self).wf(),
            final(self).uuid == old(self).uuid,
            final(self).id == old(self).id,
            final(self).learned_values@ == old(self).learned_values@,
            final(self).heard@ == old(self).heard@,
            Learner::emits(*old(self), *final(self), out@),
    {
        let ghost pre = *self;
        let mut out: Vec<u64> = Vec::new();

        while self.num_of_instances < usize::MAX && self.learned_values.contains_key(
            &self.num_of_instances,
        )
            invariant
                self.inv(),
                self.uuid == pre.uuid,
                self.id == pre.id,
                self.learned_values@ == pre.learned_values@,
                self.heard@ == pre.heard@,
                self.num_of_instances == pre.num_of_instances + out@.len(),
                self.delivered@ == pre.delivered@ + Seq::new(
                    out@.len(),
                    |j: int| (((pre.num_of_instances + j) as usize, out@[j])),
                ),
                forall|j: int|
                    0 <= j < out@.len() ==> self.learned_values@.contains_key(
                        #[trigger] ((pre.num_of_instances + j) as usize),
                    ) && out@[j] == self.learned_values@[(pre.num_of_instances + j) as usize],
            decreases usize::MAX - self.num_of_instances,
        {
            let v = *self.learned_values.get(&self.num_of_instances).unwrap();

            out.push(v);
            self.delivered = Ghost(self.delivered@.push((self.num_of_instances, v)));
            self.num_of_instances = self.num_of_instances + 1;

            proof {
                assert(self.delivered@ =~= pre.delivered@ + Seq::new(
                    out@.len(),
                    |j: int| (((pre.num_of_instances + j) as usize, out@[j])),
                ));
            }
        }

        out
    }

    /// Handles the receipt of a Learning message sent by a proposer: records
    /// the learned value for its instance and emits whatever became ready.
    /// A Learning that contradicts an already recorded value for the same
    /// instance signals a protocol bug and is surfaced as a fault, with the
    /// learner left unchanged. Replaying a Learning whose pair is already
    /// recorded changes nothing observable and emits nothing.
    pub fn handle_learning(&mut self, learning: Learning) -> (r: Result<Vec<u64>, Fault>)
        requires
            old(self).wf(),
        ensures
            final(self).wf(),
            final(self).uuid == old(self).uuid,
            final(self).id == old(self).id,
            Learner::learning_post(*old(self), *final(self), learning, r),
    {
        match self.learned_values.get(&learning.instance) {
            Some(v) => {
                if *v != learning.learned_value {
                    // All proposers must learn the same value for an instance
                    // and send that value to the learners.
                    return Err(Fault::LearnedConflict);
                }
            },
            None => {},
        }

        self.learned_values.insert(learning.instance, learning.learned_value);
        self.heard = Ghost(self.heard@.push((learning.instance, learning.learned_value)));

        proof {
            if old(self).learned_values@.contains_pair(learning.instance, learning.learned_value) {
                assert(self.learned_values@ =~= old(self).learned_values@);
            }
            assert forall|i: usize| #[trigger] self.learned_values@.contains_key(i)
                implies self.heard@.contains((i, self.learned_values@[i])) by {
                if i != learning.instance {
                    assert(old(self).heard@.contains((i, old(self).learned_values@[i])));
                }
            }
        }

        let ghost mid = *self;
        let out = self.deliver();

        proof {
            if out@.len() > 0 {
                assert(mid.learned_values@.contains_key(((mid.num_of_instances + 0) as usize)));
            }
        }

        Ok(out)
    }

    /// Handles the Report message sent by a proposer to this learner: when the
    /// report is addressed to this learner, merges its learned values into the
    /// learner's own (the report's value winning for an instance both know)
    /// and emits whatever became ready; otherwise the message is ignored.
    /// Replaying a Report whose pairs are all already recorded changes
    /// nothing observable and emits nothing.
    pub fn handle_report(&mut self, report: Report) -> (out: Vec<u64>)
        requires
            old(self).wf(),
        ensures
            final(self).wf(),
            final(self).uuid == old(self).uuid,
            final(self).id == old(self).id,
            Learner::report_post(*old(self), *final(self), report, out),
    {
        if report.receiver_uuid != self.uuid {
            return Vec::new();
        }

        let ghost pre = *self;

        if report.learned_values.is_empty() {
            proof {
                assert(self.learned_values@ =~= pre.learned_values@.union_prefer_right(
                    report.learned_values@,
                ));
            }
            let out = self.deliver();
            proof {
                if out@.len() > 0 {
                    assert(self.learned_values@.contains_key(
                        ((pre.num_of_instances + 0) as usize),
                    ));
                }
            }
            return out;
        }

        proof {
            vstd::set_lib::lemma_set_empty_equivalency_len(report.learned_values@.dom());
        }

        for kv in it: report.learned_values.iter()
            invariant
                self.inv(),
                self.uuid == pre.uuid,
                self.id == pre.id,
                self.num_of_instances == pre.num_of_instances,
                self.delivered@ == pre.delivered@,
                // What the iterator yields is exactly the report's map.
                forall|j: int|
                    #![trigger it.seq()[j]]
                    0 <= j < it.seq().len() ==> report.learned_values@.contains_key(*it.seq()[j].0)
                        && report.learned_values@[*it.seq()[j].0] == *it.seq()[j].1,
                forall|k: usize| #[trigger]
                    report.learned_values@.contains_key(k) ==> it.seq().contains(
                        (&k, &report.learned_values@[k]),
                    ),
                // Every pair merged so far is recorded.
                forall|j: int|
                    #![trigger it.seq()[j]]
                    0 <= j < it.index() ==> self.learned_values@.contains_pair(
                        *it.seq()[j].0,
                        *it.seq()[j].1,
                    ) && self.heard@.contains((*it.seq()[j].0, *it.seq()[j].1)),
                // The map grows from `pre` by report entries only.
                forall|k: usize| #[trigger]
                    pre.learned_values@.contains_key(k) ==> self.learned_values@.contains_key(k),
                forall|k: usize| #[trigger]
                    self.learned_values@.contains_key(k) ==> pre.learned_values@.contains_key(k)
                        || report.learned_values@.contains_key(k),
                forall|k: usize| #[trigger]
                    self.learned_values@.contains_key(k) && !report.learned_values@.contains_key(k)
                        ==> self.learned_values@[k] == pre.learned_values@[k],
                // The consumed history grows from `pre` by report pairs only.
                forall|p: (usize, u64)| #[trigger]
                    pre.heard@.contains(p) ==> self.heard@.contains(p),
                forall|p: (usize, u64)| #[trigger]
                    self.heard@.contains(p) ==> pre.heard@.contains(p)
                        || report.learned_values@.contains_pair(p.0, p.1),
                // Once everything has been merged, every report pair has been
                // recorded and consumed.
                it.index() == it.seq().len() ==> forall|k: usize| #[trigger]
                    report.learned_values@.contains_key(k)
                        ==> self.learned_values@.contains_pair(k, report.learned_values@[k])
                        && self.heard@.contains((k, report.learned_values@[k])),
        {
            let (k, v) = kv;

            // It is possible that we already hold the learned value associated
            // with this instance, from a Learning or from another proposer's
            // report; any overlap between converging reports is equal-valued,
            // so the overwrite is benign.
            self.learned_values.insert(*k, *v);
            self.heard = Ghost(self.heard@.push((*k, *v)));
        }

        proof {
            assert(self.learned_values@ =~= pre.learned_values@.union_prefer_right(
                report.learned_values@,
            ));
            if forall|k: usize| #[trigger]
                report.learned_values@.contains_key(k) ==> pre.learned_values@.contains_pair(
                    k,
                    report.learned_values@[k],
                ) {
                assert(self.learned_values@ =~= pre.learned_values@);
            }
        }

        let out = self.deliver();

        proof {
            if out@.len() > 0 {
                assert(self.learned_values@.contains_key(((pre.num_of_instances + 0) as usize)));
            }
        }

        out
    }

    /// One turn of the learner's receive loop: Reports and Learnings are
    /// handled, every other variant is ignored.
    pub fn handle_message(&mut self, m: Message) -> (r: Result<Vec<u64>, Fault>)
        requires
            old(self).wf(),
        ensures
            final(self).wf(),
            final(self).uuid == old(self).uuid,
            final(self).id == old(self).id,
            match m {
                Message::Phase0c(report) => r matches Ok(out) && Learner::report_post(
                    *old(self),
                    *final(self),
                    report,
                    out,
                ),
                Message::Phase3(learning) => Learner::learning_post(
                    *old(self),
                    *final(self),
                    learning,
                    r,
                ),
                _ => *final(self) == *old(self) && (r matches Ok(out) && out@.len() == 0),
            },
    {
        match m {
            Message::Phase0c(report) => Ok(self.handle_report(report)),
            Message::Phase3(learning) => self.handle_learning(learning),
            _ => Ok(Vec::new()),
        }
    }

    /// The value this learner has recorded for `instance`, if any.
    pub fn learned_value(&self, instance: usize) -> (r: Option<u64>)
        ensures
            match r {
                Some(v) => self.learned_values@.contains_pair(instance, v),
                None => !self.learned_values@.contains_key(instance),
            },
    {
        match self.learned_values.get(&instance) {
            Some(v) => Some(*v),
            None => None,
        }
    }
}

/// All pairs of one or more message histories agree per instance: no two
/// carry different values for one instance.
pub open spec fn per_instance_agreement(h: Seq<(usize, u64)>) -> bool {
    forall|a: int, b: int|
        0 <= a < h.len() && 0 <= b < h.len() && (#[trigger] h[a]).0 == (#[trigger] h[b]).0
            ==> h[a].1 == h[b].1
}

/// Total order at a learner: the values a learner emits belong to instances
/// 1, 2, 3, ... in that order, with no gaps and no repeats.
pub proof fn lemma_learner_total_order(l: Learner)
    requires
        l.wf(),
    ensures
        forall|j: int|
            0 <= j < l.delivered@.len() ==> (#[trigger] l.delivered@[j]).0 as int == j + 1,
{
}

/// Every value a learner has emitted was carried, for its instance, by some
/// Learning or Report the learner consumed.
pub proof fn lemma_learner_delivered_heard(l: Learner)
    requires
        l.wf(),
    ensures
        forall|j: int|
            0 <= j < l.delivered@.len() ==> l.heard@.contains(#[trigger] l.delivered@[j]),
{
}

/// Agreement at the learners: whenever everything two learners consumed
/// agrees per instance — which Paxos safety provides in any run — then
/// wherever both have emitted a value at the same position of their outputs,
/// the values are equal (and belong to the same instance).
pub proof fn lemma_learner_agreement(a: Learner, b: Learner, j: int)
    requires
        a.wf(),
        b.wf(),
        per_instance_agreement(a.heard@ + b.heard@),
        0 <= j < a.delivered@.len(),
        j < b.delivered@.len(),
    ensures
        a.delivered@[j] == b.delivered@[j],
{
    let h = a.heard@ + b.heard@;
    let pa = a.delivered@[j];
    let pb = b.delivered@[j];

    assert(a.heard@.contains(pa));
    assert(b.heard@.contains(pb));

    let ia = choose|i: int| 0 <= i < a.heard@.len() && a.heard@[i] == pa;
    let ib = choose|i: int| 0 <= i < b.heard@.len() && b.heard@[i] == pb;

    assert(h[ia] == pa);
    assert(h[a.heard@.len() + ib] == pb);
    assert(pa.0 as int == j + 1 && pb.0 as int == j + 1);
}

} // verus!
