//! End-to-end protocol scenarios: whole role groups exchanging messages over
//! an in-memory queue that plays the part of the group transport.
use multi_paxos::acceptor::Acceptor;
use multi_paxos::client::Client;
use multi_paxos::learner::Learner;
use multi_paxos::message::{Group, Learning, Message, Outbound};
use multi_paxos::proposer::Proposer;

/// Delivers every queued message to every member of its addressed group, in
/// order, until the network is quiet. Messages addressed to the acceptor
/// group are withheld from `drop_to_acceptor`, when one is named. Whatever a
/// learner emits is appended to its slot of `outputs`.
fn pump(
    start: Vec<Outbound>,
    proposers: &mut Vec<Proposer>,
    acceptors: &mut Vec<Acceptor>,
    learners: &mut Vec<Learner>,
    outputs: &mut Vec<Vec<u64>>,
    drop_to_acceptor: Option<usize>,
) {
    let mut queue: Vec<Outbound> = start;

    while !queue.is_empty() {
        let ob = queue.remove(0);

        match ob.group {
            Group::Proposers => {
                for p in proposers.iter_mut() {
                    if matches!(ob.message, Message::Phase0a(_)) {
                        assert!(p.can_start_instance());
                    }
                    let r = p.handle_message(ob.message.clone()).expect("proposer fault");
                    if let Some(o) = r {
                        queue.push(o);
                    }
                }
            }
            Group::Acceptors => {
                for (i, a) in acceptors.iter_mut().enumerate() {
                    if drop_to_acceptor == Some(i) {
                        continue;
                    }
                    let r = a.handle_message(ob.message.clone()).expect("acceptor fault");
                    if let Some(o) = r {
                        queue.push(o);
                    }
                }
            }
            Group::Learners => {
                for (i, l) in learners.iter_mut().enumerate() {
                    let vs = l.handle_message(ob.message.clone()).expect("learner fault");
                    outputs[i].extend(vs);
                }
            }
        }
    }
}

#[test]
fn single_client_one_value() {
    let client = Client::new(0);
    let mut proposers = vec![Proposer::new(1, 3)];
    let mut acceptors = vec![Acceptor::new(1), Acceptor::new(2), Acceptor::new(3)];
    let mut learners = vec![Learner::new(1)];
    let mut outputs = vec![Vec::new()];

    pump(
        vec![client.request(7)],
        &mut proposers,
        &mut acceptors,
        &mut learners,
        &mut outputs,
        None,
    );

    assert_eq!(outputs[0], vec![7]);
    assert_eq!(proposers[0].num_of_instances, 1);
    assert_eq!(proposers[0].learned_value(1), Some(7));
    assert_eq!(proposers[0].learned_value(2), None);
    assert_eq!(learners[0].learned_value(1), Some(7));
}

#[test]
fn two_sequential_client_values() {
    let client = Client::new(0);
    let mut proposers = vec![Proposer::new(1, 3)];
    let mut acceptors = vec![Acceptor::new(1), Acceptor::new(2), Acceptor::new(3)];
    let mut learners = vec![Learner::new(1), Learner::new(2)];
    let mut outputs = vec![Vec::new(), Vec::new()];

    pump(
        vec![client.request(7)],
        &mut proposers,
        &mut acceptors,
        &mut learners,
        &mut outputs,
        None,
    );
    pump(
        vec![client.request(42)],
        &mut proposers,
        &mut acceptors,
        &mut learners,
        &mut outputs,
        None,
    );

    assert_eq!(outputs[0], vec![7, 42]);
    assert_eq!(outputs[1], vec![7, 42]);
    assert_eq!(proposers[0].num_of_instances, 2);
    assert_eq!(proposers[0].learned_value(1), Some(7));
    assert_eq!(proposers[0].learned_value(2), Some(42));
}

#[test]
fn late_learner_catches_up() {
    let client = Client::new(0);
    let mut proposers = vec![Proposer::new(1, 3)];
    let mut acceptors = vec![Acceptor::new(1), Acceptor::new(2), Acceptor::new(3)];
    let mut learners: Vec<Learner> = Vec::new();
    let mut outputs: Vec<Vec<u64>> = Vec::new();

    // The value is decided while no learner is listening.
    pump(
        vec![client.request(5)],
        &mut proposers,
        &mut acceptors,
        &mut learners,
        &mut outputs,
        None,
    );
    assert_eq!(proposers[0].learned_value(1), Some(5));

    // A learner started afterwards asks the proposers and catches up from
    // the Report alone.
    let late = Learner::new(9);
    let catch_up = late.catch_up();
    learners.push(late);
    outputs.push(Vec::new());

    pump(
        vec![catch_up],
        &mut proposers,
        &mut acceptors,
        &mut learners,
        &mut outputs,
        None,
    );

    assert_eq!(outputs[0], vec![5]);
}

#[test]
fn concurrent_client_duplicates() {
    let first = Client::new(0);
    let second = Client::new(1);
    let mut proposers = vec![Proposer::new(1, 3)];
    let mut acceptors = vec![Acceptor::new(1), Acceptor::new(2), Acceptor::new(3)];
    let mut learners = vec![Learner::new(1)];
    let mut outputs = vec![Vec::new()];

    // Both requests are in flight before anything else is delivered.
    pump(
        vec![first.request(9), second.request(9)],
        &mut proposers,
        &mut acceptors,
        &mut learners,
        &mut outputs,
        None,
    );

    assert_eq!(proposers[0].num_of_instances, 2);
    assert_eq!(outputs[0], vec![9, 9]);
    assert_eq!(proposers[0].learned_value(1), Some(9));
    assert_eq!(proposers[0].learned_value(2), Some(9));
}

#[test]
fn acceptor_minority_drop() {
    let client = Client::new(0);
    let mut proposers = vec![Proposer::new(1, 3)];
    let mut acceptors = vec![Acceptor::new(1), Acceptor::new(2), Acceptor::new(3)];
    let mut learners = vec![Learner::new(1)];
    let mut outputs = vec![Vec::new()];

    // Every message to the third acceptor is lost; the remaining two still
    // form a majority.
    pump(
        vec![client.request(7)],
        &mut proposers,
        &mut acceptors,
        &mut learners,
        &mut outputs,
        Some(2),
    );

    assert_eq!(outputs[0], vec![7]);
    assert_eq!(learners[0].learned_value(1), Some(7));
}

#[test]
fn duplicate_learning_delivered_once() {
    let mut learner = Learner::new(1);
    let learning = Learning {
        learned_value: 3,
        sender_uuid: 42,
        instance: 1,
    };

    let first = learner
        .handle_message(Message::Phase3(learning))
        .expect("no fault");
    let second = learner
        .handle_message(Message::Phase3(learning))
        .expect("no fault");

    assert_eq!(first, vec![3]);
    assert_eq!(second, Vec::<u64>::new());
    assert_eq!(learner.learned_value(1), Some(3));
}
