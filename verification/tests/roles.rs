//! Per-role behavior: promise/vote rules, quorum formulas, value picking,
//! ordering at the learner, and each protocol fault.
use std::collections::HashMap;

use multi_paxos::acceptor::Acceptor;
use multi_paxos::client::Client;
use multi_paxos::learner::Learner;
use multi_paxos::message::{
    Acceptance, Fault, Group, Learning, Message, Preparation, Promise, Proposal, Report,
};
use multi_paxos::proposer::Proposer;

fn preparation(c_rnd: usize, sender_uuid: u128, instance: usize) -> Preparation {
    Preparation {
        c_rnd,
        sender_uuid,
        instance,
    }
}

#[test]
fn client_request_carries_value_and_sender() {
    let client = Client::new(4);
    let out = client.request(7);

    assert_eq!(out.group, Group::Proposers);
    match out.message {
        Message::Phase0a(r) => {
            assert_eq!(r.value, 7);
            assert_eq!(r.sender_uuid, client.uuid);
        }
        other => panic!("unexpected message {:?}", other),
    }
}

#[test]
fn fresh_identifiers_differ() {
    let a = Client::new(0);
    let b = Client::new(0);
    assert_ne!(a.uuid, b.uuid);
}

#[test]
fn acceptor_rnd_never_decreases() {
    let mut a = Acceptor::new(1);

    let out = a.handle_preparation(preparation(5, 70, 1));
    assert!(out.is_some());
    assert_eq!(a.state_copy(1).rnd, 5);

    // A lower or equal round is dropped and the promised round stands.
    assert!(a.handle_preparation(preparation(3, 70, 1)).is_none());
    assert!(a.handle_preparation(preparation(5, 70, 1)).is_none());
    assert_eq!(a.state_copy(1).rnd, 5);

    assert!(a.handle_preparation(preparation(6, 70, 1)).is_some());
    assert_eq!(a.state_copy(1).rnd, 6);
}

#[test]
fn acceptor_vote_round_increases_when_value_changes() {
    let mut a = Acceptor::new(1);

    assert!(a.handle_preparation(preparation(2, 70, 1)).is_some());

    let r = a
        .handle_proposal(Proposal {
            c_rnd: 2,
            c_val: Some(7),
            sender_uuid: 70,
            instance: 1,
        })
        .expect("no fault");
    assert!(r.is_some());
    assert_eq!(a.state_copy(1).rnd, 2);
    assert_eq!(a.state_copy(1).v_rnd, 2);
    assert_eq!(a.state_copy(1).v_val, Some(7));

    // A proposal with a higher round may overwrite the vote; the vote round
    // strictly increases with the changed value, and casting the vote raises
    // the participation round too.
    let r2 = a
        .handle_proposal(Proposal {
            c_rnd: 4,
            c_val: Some(9),
            sender_uuid: 71,
            instance: 1,
        })
        .expect("no fault");
    assert!(r2.is_some());
    assert_eq!(a.state_copy(1).rnd, 4);
    assert_eq!(a.state_copy(1).v_rnd, 4);
    assert_eq!(a.state_copy(1).v_val, Some(9));

    // A proposal below the promised round is dropped outright.
    let r3 = a
        .handle_proposal(Proposal {
            c_rnd: 1,
            c_val: Some(8),
            sender_uuid: 72,
            instance: 1,
        })
        .expect("no fault");
    assert!(r3.is_none());
    assert_eq!(a.state_copy(1).v_rnd, 4);
    assert_eq!(a.state_copy(1).v_val, Some(9));
}

#[test]
fn acceptor_duplicate_messages_are_benign() {
    let mut a = Acceptor::new(1);

    assert!(a.handle_preparation(preparation(5, 70, 1)).is_some());
    let before = a.state_copy(1);
    assert!(a.handle_preparation(preparation(5, 70, 1)).is_none());
    assert_eq!(a.state_copy(1), before);

    let proposal = Proposal {
        c_rnd: 5,
        c_val: Some(7),
        sender_uuid: 70,
        instance: 1,
    };
    let first = a.handle_proposal(proposal).expect("no fault");
    let second = a.handle_proposal(proposal).expect("no fault");

    // The replayed proposal repeats the same acceptance and leaves the
    // record where the first one left it.
    match (first, second) {
        (Some(x), Some(y)) => match (x.message, y.message) {
            (Message::Phase2b(m), Message::Phase2b(n)) => assert_eq!(m, n),
            _ => panic!("expected acceptances"),
        },
        _ => panic!("expected two acceptances"),
    }
    assert_eq!(a.state_copy(1).v_rnd, 5);
    assert_eq!(a.state_copy(1).v_val, Some(7));
}

#[test]
fn acceptor_accept_counts_as_participation() {
    let mut a = Acceptor::new(1);

    // All Preparations were lost; the first Proposal to arrive is accepted
    // and raises the participation round along with the vote round.
    let r = a
        .handle_proposal(Proposal {
            c_rnd: 5,
            c_val: Some(1),
            sender_uuid: 70,
            instance: 1,
        })
        .expect("no fault");
    assert!(r.is_some());
    assert_eq!(a.state_copy(1).rnd, 5);
    assert_eq!(a.state_copy(1).v_rnd, 5);
    assert_eq!(a.state_copy(1).v_val, Some(1));

    // A Proposal from a lower round arriving out of order can no longer
    // overwrite the higher-round vote: it is dropped.
    let r2 = a
        .handle_proposal(Proposal {
            c_rnd: 3,
            c_val: Some(2),
            sender_uuid: 71,
            instance: 1,
        })
        .expect("no fault");
    assert!(r2.is_none());
    assert_eq!(a.state_copy(1).rnd, 5);
    assert_eq!(a.state_copy(1).v_rnd, 5);
    assert_eq!(a.state_copy(1).v_val, Some(1));
}

#[test]
fn acceptor_rejects_valueless_proposal() {
    let mut a = Acceptor::new(1);
    let r = a.handle_proposal(Proposal {
        c_rnd: 1,
        c_val: None,
        sender_uuid: 70,
        instance: 1,
    });
    assert_eq!(r, Err(Fault::ValueMissing));
}

#[test]
fn proposer_majority_formula() {
    assert_eq!(Proposer::new(1, 1).majority_of_acceptors, 1);
    assert_eq!(Proposer::new(1, 3).majority_of_acceptors, 2);
    assert_eq!(Proposer::new(1, 4).majority_of_acceptors, 3);
    assert_eq!(Proposer::new(1, 5).majority_of_acceptors, 3);
}

#[test]
fn proposer_biases_round_by_id() {
    let mut p = Proposer::new(3, 3);
    assert!(p.can_start_instance());
    let out = p.handle_request(multi_paxos::message::Request {
        value: 7,
        sender_uuid: 9,
    });

    assert_eq!(out.group, Group::Acceptors);
    match out.message {
        Message::Phase1a(prep) => {
            // c_rnd steps from 0, biased by the proposer's id: (0 + 1) * 3.
            assert_eq!(prep.c_rnd, 3);
            assert_eq!(prep.instance, 1);
            assert_eq!(prep.sender_uuid, p.uuid);
        }
        other => panic!("unexpected message {:?}", other),
    }
    assert_eq!(p.num_of_instances, 1);
}

#[test]
fn proposer_proposes_client_value_without_prior_votes() {
    let mut p = Proposer::new(1, 3);
    p.handle_request(multi_paxos::message::Request {
        value: 7,
        sender_uuid: 9,
    });

    let uuid = p.uuid;
    let promise = move |sender: u128| Promise {
        rnd: 1,
        v_rnd: 0,
        v_val: None,
        sender_uuid: sender,
        receiver_uuid: uuid,
        instance: 1,
    };

    assert!(p.handle_promise(promise(50)).is_none());
    let out = p.handle_promise(promise(51)).expect("quorum reached");

    match out.message {
        Message::Phase2a(proposal) => {
            assert_eq!(proposal.c_rnd, 1);
            assert_eq!(proposal.c_val, Some(7));
            assert_eq!(proposal.instance, 1);
        }
        other => panic!("unexpected message {:?}", other),
    }
}

#[test]
fn proposer_proposes_highest_reported_vote() {
    let mut p = Proposer::new(1, 3);
    p.handle_request(multi_paxos::message::Request {
        value: 7,
        sender_uuid: 9,
    });

    // One acceptor reports a vote cast in an earlier round; the proposal must
    // carry that value, not the client's.
    assert!(p
        .handle_promise(Promise {
            rnd: 1,
            v_rnd: 1,
            v_val: Some(9),
            sender_uuid: 50,
            receiver_uuid: p.uuid,
            instance: 1,
        })
        .is_none());
    let out = p
        .handle_promise(Promise {
            rnd: 1,
            v_rnd: 0,
            v_val: None,
            sender_uuid: 51,
            receiver_uuid: p.uuid,
            instance: 1,
        })
        .expect("quorum reached");

    match out.message {
        Message::Phase2a(proposal) => assert_eq!(proposal.c_val, Some(9)),
        other => panic!("unexpected message {:?}", other),
    }
}

#[test]
fn proposer_stalls_on_mixed_promise_rounds() {
    let mut p = Proposer::new(1, 3);
    p.handle_request(multi_paxos::message::Request {
        value: 7,
        sender_uuid: 9,
    });

    // A promise for a higher round slipped in: the quorum is mixed, so no
    // proposal goes out for this instance.
    let uuid = p.uuid;
    let mk = move |rnd: usize, sender: u128| Promise {
        rnd,
        v_rnd: 0,
        v_val: None,
        sender_uuid: sender,
        receiver_uuid: uuid,
        instance: 1,
    };
    assert!(p.handle_promise(mk(1, 50)).is_none());
    assert!(p.handle_promise(mk(2, 51)).is_none());
    assert!(p.handle_promise(mk(1, 52)).is_none());
}

#[test]
fn proposer_ignores_promise_for_other_receiver() {
    let mut p = Proposer::new(1, 3);
    p.handle_request(multi_paxos::message::Request {
        value: 7,
        sender_uuid: 9,
    });
    let before = p.num_of_instances;

    let out = p.handle_promise(Promise {
        rnd: 1,
        v_rnd: 0,
        v_val: None,
        sender_uuid: 50,
        receiver_uuid: p.uuid.wrapping_add(1),
        instance: 1,
    });

    assert!(out.is_none());
    assert_eq!(p.num_of_instances, before);
}

#[test]
fn proposer_acceptance_without_value_is_fault() {
    let mut p = Proposer::new(1, 3);
    let r = p.handle_acceptance(Acceptance {
        v_rnd: 1,
        v_val: None,
        sender_uuid: 50,
        receiver_uuid: 9,
        instance: 1,
    });
    assert_eq!(r, Err(Fault::ValueMissing));
}

#[test]
fn proposer_conflicting_learned_value_is_fault() {
    let mut p = Proposer::new(1, 1);

    let acceptance = |v_val: u64| Acceptance {
        v_rnd: 1,
        v_val: Some(v_val),
        sender_uuid: 50,
        receiver_uuid: 9,
        instance: 1,
    };

    // A single acceptor is a majority here: the first acceptance records the
    // learned value, the second reports a different one.
    assert_eq!(p.handle_acceptance(acceptance(7)), Ok(None));
    assert_eq!(p.learned_value(1), Some(7));
    assert_eq!(p.handle_acceptance(acceptance(8)), Err(Fault::LearnedConflict));
    assert_eq!(p.learned_value(1), Some(7));
}

#[test]
fn proposer_decision_mismatch_is_fault() {
    let mut p = Proposer::new(1, 3);
    p.handle_request(multi_paxos::message::Request {
        value: 7,
        sender_uuid: 9,
    });
    let uuid = p.uuid;
    let promise = move |sender: u128| Promise {
        rnd: 1,
        v_rnd: 0,
        v_val: None,
        sender_uuid: sender,
        receiver_uuid: uuid,
        instance: 1,
    };
    p.handle_promise(promise(50));
    p.handle_promise(promise(51)).expect("proposal sent");

    // The quorum votes in the proposer's round but for a value other than
    // the one it picked: a protocol bug is surfaced.
    let acceptance = move |sender: u128| Acceptance {
        v_rnd: 1,
        v_val: Some(8),
        sender_uuid: sender,
        receiver_uuid: uuid,
        instance: 1,
    };
    assert_eq!(p.handle_acceptance(acceptance(50)), Ok(None));
    assert_eq!(p.handle_acceptance(acceptance(51)), Err(Fault::DecisionMismatch));
}

#[test]
fn proposer_report_replaces_state_when_addressed() {
    let mut p = Proposer::new(1, 3);

    let mut learned = HashMap::new();
    learned.insert(1usize, 7u64);
    learned.insert(2usize, 42u64);

    p.handle_report(Report {
        num_of_instances: 2,
        learned_values: learned,
        sender_uuid: 50,
        receiver_uuid: p.uuid,
    });

    assert_eq!(p.num_of_instances, 2);
    assert_eq!(p.learned_value(1), Some(7));
    assert_eq!(p.learned_value(2), Some(42));

    // A report addressed elsewhere is ignored.
    p.handle_report(Report {
        num_of_instances: 9,
        learned_values: HashMap::new(),
        sender_uuid: 50,
        receiver_uuid: p.uuid.wrapping_add(1),
    });
    assert_eq!(p.num_of_instances, 2);
    assert_eq!(p.learned_value(1), Some(7));
}

#[test]
fn proposer_answers_foreign_catch_up_only() {
    let p = Proposer::new(1, 3);
    let l = Learner::new(1);

    // Its own catch-up is dropped.
    let own = match p.catch_up().message {
        Message::Phase0b(c) => c,
        other => panic!("unexpected message {:?}", other),
    };
    assert!(p.handle_catch_up(own).is_none());

    // A learner's catch-up is answered with a Report to the learner group.
    let foreign = match l.catch_up().message {
        Message::Phase0b(c) => c,
        other => panic!("unexpected message {:?}", other),
    };
    let out = p.handle_catch_up(foreign).expect("report sent");
    assert_eq!(out.group, Group::Learners);
    match out.message {
        Message::Phase0c(r) => {
            assert_eq!(r.receiver_uuid, l.uuid);
            assert_eq!(r.sender_uuid, p.uuid);
            assert_eq!(r.num_of_instances, 0);
        }
        other => panic!("unexpected message {:?}", other),
    }
}

#[test]
fn learner_emits_in_instance_order() {
    let mut l = Learner::new(1);

    let learning = |instance: usize, value: u64| Learning {
        learned_value: value,
        sender_uuid: 50,
        instance,
    };

    // Instances 2 and 3 arrive before instance 1: nothing is emitted until
    // the gap at 1 closes, then everything comes out in instance order.
    assert_eq!(l.handle_learning(learning(3, 30)), Ok(vec![]));
    assert_eq!(l.handle_learning(learning(2, 20)), Ok(vec![]));
    assert_eq!(l.handle_learning(learning(1, 10)), Ok(vec![10, 20, 30]));
    assert_eq!(l.num_of_instances, 4);
}

#[test]
fn learner_conflicting_learning_is_fault() {
    let mut l = Learner::new(1);

    let learning = |value: u64| Learning {
        learned_value: value,
        sender_uuid: 50,
        instance: 1,
    };

    assert_eq!(l.handle_learning(learning(7)), Ok(vec![7]));
    assert_eq!(l.handle_learning(learning(8)), Err(Fault::LearnedConflict));
    assert_eq!(l.learned_value(1), Some(7));
}

#[test]
fn learners_agree_given_agreeing_messages() {
    let mut a = Learner::new(1);
    let mut b = Learner::new(2);

    let learning = |instance: usize, value: u64| Learning {
        learned_value: value,
        sender_uuid: 50,
        instance,
    };

    // The same per-instance values, in different arrival orders, give the
    // same emitted sequence at both learners.
    let mut out_a = Vec::new();
    out_a.extend(a.handle_learning(learning(1, 10)).unwrap());
    out_a.extend(a.handle_learning(learning(2, 20)).unwrap());
    out_a.extend(a.handle_learning(learning(3, 30)).unwrap());

    let mut out_b = Vec::new();
    out_b.extend(b.handle_learning(learning(3, 30)).unwrap());
    out_b.extend(b.handle_learning(learning(1, 10)).unwrap());
    out_b.extend(b.handle_learning(learning(2, 20)).unwrap());

    assert_eq!(out_a, out_b);
    assert_eq!(out_a, vec![10, 20, 30]);
}

#[test]
fn learner_merges_report_and_later_learnings() {
    let mut l = Learner::new(1);

    let mut learned = HashMap::new();
    learned.insert(1usize, 7u64);
    learned.insert(2usize, 42u64);

    let out = l.handle_report(Report {
        num_of_instances: 2,
        learned_values: learned,
        sender_uuid: 50,
        receiver_uuid: l.uuid,
    });
    assert_eq!(out, vec![7, 42]);

    // A Report addressed to another learner changes nothing.
    let mut other = HashMap::new();
    other.insert(3usize, 9u64);
    let ignored = l.handle_report(Report {
        num_of_instances: 3,
        learned_values: other,
        sender_uuid: 50,
        receiver_uuid: l.uuid.wrapping_add(1),
    });
    assert_eq!(ignored, Vec::<u64>::new());

    let out2 = l
        .handle_learning(Learning {
            learned_value: 9,
            sender_uuid: 50,
            instance: 3,
        })
        .unwrap();
    assert_eq!(out2, vec![9]);
}

#[test]
fn learner_replayed_report_changes_nothing() {
    let mut l = Learner::new(1);

    let mut learned = HashMap::new();
    learned.insert(1usize, 7u64);

    let uuid = l.uuid;
    let report = move || Report {
        num_of_instances: 1,
        learned_values: learned.clone(),
        sender_uuid: 50,
        receiver_uuid: uuid,
    };

    assert_eq!(l.handle_report(report()), vec![7]);
    assert_eq!(l.handle_report(report()), Vec::<u64>::new());
    assert_eq!(l.num_of_instances, 2);
    assert_eq!(l.learned_value(1), Some(7));
}

#[test]
fn proposer_replayed_promise_resends_same_proposal() {
    let mut p = Proposer::new(1, 3);
    p.handle_request(multi_paxos::message::Request {
        value: 7,
        sender_uuid: 9,
    });

    let uuid = p.uuid;
    let promise = move |sender: u128| Promise {
        rnd: 1,
        v_rnd: 0,
        v_val: None,
        sender_uuid: sender,
        receiver_uuid: uuid,
        instance: 1,
    };

    assert!(p.handle_promise(promise(50)).is_none());
    let first = p.handle_promise(promise(51)).expect("quorum reached");

    // The duplicated Promise pushes the quorum past its threshold again and
    // the identical Proposal goes out once more.
    let again = p.handle_promise(promise(51)).expect("still a full quorum");
    assert_eq!(first, again);
    assert_eq!(p.num_of_instances, 1);
}

#[test]
fn proposer_replayed_acceptance_resends_same_learning() {
    let mut p = Proposer::new(1, 3);
    p.handle_request(multi_paxos::message::Request {
        value: 7,
        sender_uuid: 9,
    });

    let uuid = p.uuid;
    let promise = move |sender: u128| Promise {
        rnd: 1,
        v_rnd: 0,
        v_val: None,
        sender_uuid: sender,
        receiver_uuid: uuid,
        instance: 1,
    };
    p.handle_promise(promise(50));
    p.handle_promise(promise(51)).expect("proposal sent");

    let acceptance = move |sender: u128| Acceptance {
        v_rnd: 1,
        v_val: Some(7),
        sender_uuid: sender,
        receiver_uuid: uuid,
        instance: 1,
    };
    assert_eq!(p.handle_acceptance(acceptance(50)), Ok(None));
    let first = p
        .handle_acceptance(acceptance(51))
        .expect("learning sent")
        .expect("learning sent");

    // The duplicated Acceptance re-records the same learned value and the
    // identical Learning goes out once more.
    let again = p
        .handle_acceptance(acceptance(51))
        .expect("no fault")
        .expect("still a full quorum");
    assert_eq!(first, again);
    assert_eq!(p.learned_value(1), Some(7));
}
