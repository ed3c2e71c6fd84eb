use pubsub_subscriber::dispatch::{handle_message, Dispatched, Dispatcher, Outcome, Step};
use pubsub_subscriber::message::{Envelope, PubsubMessage, ReceivedMessage, Timestamp};
use pubsub_subscriber::rpc::{Batch, ModifyAckDeadlineRequest};

const SUBSCRIPTION: &str = "projects/local-project/subscriptions/test-subscription1";

fn message(data: &str) -> PubsubMessage {
    PubsubMessage {
        data: data.as_bytes().to_vec(),
        attributes: Vec::new(),
        message_id: format!("id-{data}"),
        publish_time: None,
        ordering_key: String::new(),
    }
}

fn envelope(ack_id: &str, data: Option<&str>, delivery_attempt: i32) -> Envelope {
    Envelope { ack_id: ack_id.to_string(), message: data.map(message), delivery_attempt }
}

/// Runs a dispatch to its end, answering the offers with `outcomes` in turn.
fn run(dispatcher: Dispatcher, outcomes: &[Outcome]) -> (Vec<ReceivedMessage>, Dispatched) {
    let mut offered = Vec::new();
    let mut answers = outcomes.iter();
    let mut step = dispatcher.next();
    loop {
        match step {
            Step::Offer(lease, waiting) => {
                offered.push(lease);
                let outcome = *answers.next().unwrap();
                step = waiting.settle(outcome).next();
            }
            Step::Done(dispatched) => {
                assert!(answers.next().is_none());
                return (offered, dispatched);
            }
        }
    }
}

#[test]
fn test_handle_message_immediately_nack() {
    let messages = vec![envelope("ack-hoge", Some("hoge"), 0)];
    let (queue, _receiver) = async_channel::unbounded::<ReceivedMessage>();
    queue.close();

    let mut calls: Vec<ModifyAckDeadlineRequest> = Vec::new();
    let mut step = handle_message(SUBSCRIPTION.to_string(), messages).next();
    let nack_size = loop {
        match step {
            Step::Offer(lease, waiting) => {
                let outcome = match queue.try_send(lease) {
                    Ok(()) => Outcome::Delivered,
                    Err(_) => Outcome::Refused,
                };
                step = waiting.settle(outcome).next();
            }
            Step::Done(dispatched) => {
                if let Batch::Call(request) = dispatched.nack {
                    calls.push(request);
                }
                break dispatched.nacked;
            }
        }
    };
    assert_eq!(1, nack_size);
    assert_eq!(
        calls,
        vec![ModifyAckDeadlineRequest {
            subscription: SUBSCRIPTION.to_string(),
            ack_ids: vec!["ack-hoge".to_string()],
            ack_deadline_seconds: 0,
        }]
    );
}

#[test]
fn open_queue_takes_every_lease() {
    let messages = vec![envelope("a", Some("one"), 0), envelope("b", Some("two"), 0)];
    let (queue, receiver) = async_channel::unbounded::<ReceivedMessage>();
    let mut step = handle_message(SUBSCRIPTION.to_string(), messages).next();
    let dispatched = loop {
        match step {
            Step::Offer(lease, waiting) => {
                let outcome = match queue.try_send(lease) {
                    Ok(()) => Outcome::Delivered,
                    Err(_) => Outcome::Refused,
                };
                step = waiting.settle(outcome).next();
            }
            Step::Done(dispatched) => break dispatched,
        }
    };
    assert_eq!(dispatched.nacked, 0);
    assert_eq!(dispatched.nack, Batch::Succeeded);
    assert_eq!(receiver.len(), 2);
    assert_eq!(receiver.try_recv().unwrap().ack_id(), "a");
    assert_eq!(receiver.try_recv().unwrap().ack_id(), "b");
}

#[test]
fn empty_frame_is_done_at_once() {
    let (offered, dispatched) = run(handle_message(SUBSCRIPTION.to_string(), Vec::new()), &[]);
    assert!(offered.is_empty());
    assert_eq!(dispatched.nacked, 0);
    assert_eq!(dispatched.nack, Batch::Succeeded);
}

#[test]
fn entries_without_message_are_passed_over() {
    let messages = vec![
        envelope("skip-1", None, 0),
        envelope("a", Some("one"), 0),
        envelope("skip-2", None, 4),
        envelope("b", Some("two"), 0),
        envelope("skip-3", None, 0),
    ];
    let (offered, dispatched) = run(
        handle_message(SUBSCRIPTION.to_string(), messages),
        &[Outcome::Refused, Outcome::Refused],
    );
    let tokens: Vec<&str> = offered.iter().map(|lease| lease.ack_id()).collect();
    assert_eq!(tokens, vec!["a", "b"]);
    assert_eq!(dispatched.nacked, 2);
    assert_eq!(
        dispatched.nack,
        Batch::Call(ModifyAckDeadlineRequest {
            subscription: SUBSCRIPTION.to_string(),
            ack_ids: vec!["a".to_string(), "b".to_string()],
            ack_deadline_seconds: 0,
        })
    );
}

#[test]
fn frame_without_any_message_makes_no_call() {
    let messages = vec![envelope("x", None, 0), envelope("y", None, 0)];
    let (offered, dispatched) = run(handle_message(SUBSCRIPTION.to_string(), messages), &[]);
    assert!(offered.is_empty());
    assert_eq!(dispatched.nacked, 0);
    assert_eq!(dispatched.nack, Batch::Succeeded);
}

#[test]
fn every_lease_is_delivered_or_nacked() {
    let messages = vec![
        envelope("a", Some("1"), 0),
        envelope("b", Some("2"), 0),
        envelope("c", Some("3"), 0),
        envelope("d", Some("4"), 0),
        envelope("e", Some("5"), 0),
    ];
    let outcomes = [
        Outcome::Delivered,
        Outcome::Refused,
        Outcome::Delivered,
        Outcome::Refused,
        Outcome::Refused,
    ];
    let (offered, dispatched) = run(handle_message(SUBSCRIPTION.to_string(), messages), &outcomes);
    let tokens: Vec<&str> = offered.iter().map(|lease| lease.ack_id()).collect();
    assert_eq!(tokens, vec!["a", "b", "c", "d", "e"]);
    let nacked = match dispatched.nack {
        Batch::Call(request) => request.ack_ids,
        Batch::Succeeded => Vec::new(),
    };
    assert_eq!(nacked, vec!["b".to_string(), "d".to_string(), "e".to_string()]);
    assert_eq!(dispatched.nacked, 3);
    for (token, outcome) in tokens.iter().zip(outcomes.iter()) {
        let handed_back = nacked.iter().filter(|t| t.as_str() == *token).count();
        match outcome {
            Outcome::Delivered => assert_eq!(handed_back, 0),
            Outcome::Refused => assert_eq!(handed_back, 1),
        }
    }
}

#[test]
fn cancellation_in_the_middle_of_a_frame() {
    // The queue takes the first handle; then cancellation wins every race.
    let messages = vec![
        envelope("a", Some("1"), 1),
        envelope("b", Some("2"), 1),
        envelope("c", Some("3"), 1),
    ];
    let (offered, dispatched) = run(
        handle_message(SUBSCRIPTION.to_string(), messages),
        &[Outcome::Delivered, Outcome::Refused, Outcome::Refused],
    );
    assert_eq!(offered.len(), 3);
    assert_eq!(dispatched.nacked, 2);
    assert_eq!(
        dispatched.nack,
        Batch::Call(ModifyAckDeadlineRequest {
            subscription: SUBSCRIPTION.to_string(),
            ack_ids: vec!["b".to_string(), "c".to_string()],
            ack_deadline_seconds: 0,
        })
    );
}

#[test]
fn lease_carries_the_message_and_the_subscription() {
    let payload = PubsubMessage {
        data: b"hoge".to_vec(),
        attributes: vec![("k".to_string(), "v".to_string())],
        message_id: "m-1".to_string(),
        publish_time: Some(Timestamp { seconds: 1_700_000_000, nanos: 5 }),
        ordering_key: "order".to_string(),
    };
    let messages =
        vec![Envelope { ack_id: "tok".to_string(), message: Some(payload.clone()), delivery_attempt: 2 }];
    let (offered, _) = run(handle_message(SUBSCRIPTION.to_string(), messages), &[Outcome::Delivered]);
    assert_eq!(offered.len(), 1);
    let lease = &offered[0];
    assert_eq!(lease.message(), &payload);
    assert_eq!(lease.ack_id(), "tok");
    assert_eq!(lease.delivery_attempt(), Some(2));
    assert_eq!(lease.ack().subscription, SUBSCRIPTION);
}

#[test]
fn delivery_attempt_of_the_lease() {
    let messages = vec![
        envelope("zero", Some("1"), 0),
        envelope("one", Some("2"), 1),
        envelope("many", Some("3"), 17),
        envelope("most", Some("4"), i32::MAX),
        envelope("below", Some("5"), -1),
    ];
    let (offered, _) = run(
        handle_message(SUBSCRIPTION.to_string(), messages),
        &[Outcome::Delivered; 5],
    );
    let attempts: Vec<Option<usize>> = offered.iter().map(|lease| lease.delivery_attempt()).collect();
    assert_eq!(attempts, vec![None, Some(1), Some(17), Some(i32::MAX as usize), None]);
}
