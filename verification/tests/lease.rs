use pubsub_subscriber::dispatch::{handle_message, Outcome, Step};
use pubsub_subscriber::message::{delivery_attempt_of, Envelope, PubsubMessage, ReceivedMessage};
use pubsub_subscriber::rpc::{
    ack, create_empty_streaming_pull_request, modify_ack_deadline, nack, AcknowledgeRequest, Batch,
    ModifyAckDeadlineRequest, StreamingPullRequest,
};

fn lease(subscription: &str, ack_id: &str, delivery_attempt: i32) -> ReceivedMessage {
    let envelope = Envelope {
        ack_id: ack_id.to_string(),
        message: Some(PubsubMessage {
            data: b"payload".to_vec(),
            attributes: Vec::new(),
            message_id: "1".to_string(),
            publish_time: None,
            ordering_key: String::new(),
        }),
        delivery_attempt,
    };
    match handle_message(subscription.to_string(), vec![envelope]).next() {
        Step::Offer(lease, waiting) => {
            let _ = waiting.settle(Outcome::Delivered);
            lease
        }
        Step::Done(_) => panic!("a frame with a message offers a lease"),
    }
}

#[test]
fn ack_of_no_lease_makes_no_call() {
    assert_eq!(ack("sub".to_string(), Vec::new()), Batch::Succeeded);
}

#[test]
fn modify_ack_deadline_of_no_lease_makes_no_call() {
    assert_eq!(modify_ack_deadline("sub".to_string(), Vec::new(), 30), Batch::Succeeded);
    assert_eq!(modify_ack_deadline("sub".to_string(), Vec::new(), 0), Batch::Succeeded);
    assert_eq!(nack("sub".to_string(), Vec::new()), Batch::Succeeded);
}

#[test]
fn ack_is_one_call_for_all_leases() {
    let ids = vec!["a".to_string(), "b".to_string(), "c".to_string()];
    assert_eq!(
        ack("sub".to_string(), ids.clone()),
        Batch::Call(AcknowledgeRequest { subscription: "sub".to_string(), ack_ids: ids })
    );
}

#[test]
fn modify_ack_deadline_passes_the_deadline_on() {
    let ids = vec!["a".to_string(), "b".to_string()];
    assert_eq!(
        modify_ack_deadline("sub".to_string(), ids.clone(), 600),
        Batch::Call(ModifyAckDeadlineRequest {
            subscription: "sub".to_string(),
            ack_ids: ids.clone(),
            ack_deadline_seconds: 600,
        })
    );
    // Nothing is checked here: the broker judges the value.
    assert_eq!(
        modify_ack_deadline("sub".to_string(), ids.clone(), -5),
        Batch::Call(ModifyAckDeadlineRequest {
            subscription: "sub".to_string(),
            ack_ids: ids,
            ack_deadline_seconds: -5,
        })
    );
}

#[test]
fn nack_is_a_deadline_of_zero() {
    let ids = vec!["a".to_string()];
    assert_eq!(
        nack("sub".to_string(), ids.clone()),
        modify_ack_deadline("sub".to_string(), ids.clone(), 0)
    );
    assert_eq!(
        nack("sub".to_string(), ids.clone()),
        Batch::Call(ModifyAckDeadlineRequest {
            subscription: "sub".to_string(),
            ack_ids: ids,
            ack_deadline_seconds: 0,
        })
    );
}

#[test]
fn lease_acks_its_own_token() {
    let lease = lease("projects/p/subscriptions/s", "token-1", 0);
    assert_eq!(lease.ack_id(), "token-1");
    assert_eq!(
        lease.ack(),
        AcknowledgeRequest {
            subscription: "projects/p/subscriptions/s".to_string(),
            ack_ids: vec!["token-1".to_string()],
        }
    );
}

#[test]
fn lease_nacks_with_a_deadline_of_zero() {
    let lease = lease("projects/p/subscriptions/s", "token-2", 0);
    assert_eq!(
        lease.nack(),
        ModifyAckDeadlineRequest {
            subscription: "projects/p/subscriptions/s".to_string(),
            ack_ids: vec!["token-2".to_string()],
            ack_deadline_seconds: 0,
        }
    );
    assert_eq!(lease.nack(), lease.modify_ack_deadline(0));
}

#[test]
fn lease_moves_its_deadline() {
    let lease = lease("projects/p/subscriptions/s", "token-3", 0);
    assert_eq!(
        lease.modify_ack_deadline(45),
        ModifyAckDeadlineRequest {
            subscription: "projects/p/subscriptions/s".to_string(),
            ack_ids: vec!["token-3".to_string()],
            ack_deadline_seconds: 45,
        }
    );
    assert_eq!(lease.modify_ack_deadline(5).ack_deadline_seconds, 5);
}

#[test]
fn lease_gives_its_message_up() {
    let lease = lease("sub", "token-4", 0);
    assert_eq!(lease.message().data, b"payload".to_vec());
    let message = lease.into_message();
    assert_eq!(message.message_id, "1");
}

#[test]
fn delivery_attempt_is_none_for_zero() {
    assert_eq!(delivery_attempt_of(0), None);
    assert_eq!(lease("sub", "t", 0).delivery_attempt(), None);
}

#[test]
fn delivery_attempt_is_the_count_otherwise() {
    assert_eq!(delivery_attempt_of(1), Some(1));
    assert_eq!(delivery_attempt_of(2), Some(2));
    assert_eq!(delivery_attempt_of(i32::MAX), Some(2_147_483_647));
    assert_eq!(delivery_attempt_of(-3), None);
    assert_eq!(delivery_attempt_of(i32::MIN), None);
    assert_eq!(lease("sub", "t", 9).delivery_attempt(), Some(9));
}

#[test]
fn empty_streaming_pull_request_holds_nothing() {
    assert_eq!(
        create_empty_streaming_pull_request(),
        StreamingPullRequest {
            subscription: String::new(),
            ack_ids: Vec::new(),
            modify_deadline_seconds: Vec::new(),
            modify_deadline_ack_ids: Vec::new(),
            stream_ack_deadline_seconds: 0,
            client_id: String::new(),
            max_outstanding_messages: 0,
            max_outstanding_bytes: 0,
        }
    );
}
