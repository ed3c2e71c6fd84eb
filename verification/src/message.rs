//! Messages as the broker delivers them, and the lease handle that the
//! consumer holds for each.

use crate::rpc::{
    ack, modify_ack_deadline, nack, AcknowledgeRequest, AcknowledgeRequestView, Batch,
    ModifyAckDeadlineRequest, ModifyAckDeadlineRequestView,
};
use vstd::pervasive::unreached;
use vstd::prelude::*;

verus! {

/// A point in time: seconds and nanoseconds since the Unix epoch.
#[derive(Clone, Copy, Debug, PartialEq, Eq)]
pub struct Timestamp {
    pub seconds: i64,
    pub nanos: i32,
}

/// A published message.
#[derive(Clone, Debug, PartialEq, Eq)]
pub struct PubsubMessage {
    pub data: Vec<u8>,
    pub attributes: Vec<(String, String)>,
    pub message_id: String,
    pub publish_time: Option<Timestamp>,
    pub ordering_key: String,
}

/// One entry of an inbound frame: a lease token, the message it leases (a
/// frame may hold entries without one), and the number of delivery attempts
/// that the broker reports, zero where it keeps no count.
#[derive(Clone, Debug, PartialEq, Eq)]
pub struct Envelope {
    pub ack_id: String,
    pub message: Option<PubsubMessage>,
    pub delivery_attempt: i32,
}

/// The delivery attempt that a lease handle shows for a reported count: none
/// unless the count is positive.
pub open spec fn attempt_of(count: i32) -> Option<usize> {
    if count > 0 {
        Some(count as usize)
    } else {
        None
    }
}

/// A count of zero shows as no attempt; any other count that a broker can
/// report shows as itself, which is at least one.
pub proof fn lemma_attempt_counts_from_one(count: i32)
    requires
        count >= 0,
    ensures
        count == 0 ==> attempt_of(count) is None,
        count != 0 ==> attempt_of(count) is Some && attempt_of(count)->0 == count && attempt_of(
            count,
        )->0 >= 1,
{
}

/// The delivery attempt of a reported count.
pub fn delivery_attempt_of(count: i32) -> (attempt: Option<usize>)
    ensures
        attempt == attempt_of(count),
{
    if count > 0 {
        Some(count as usize)
    } else {
        None
    }
}

/// A delivered message together with its lease.
#[derive(Debug)]
pub struct ReceivedMessage {
    message: PubsubMessage,
    ack_id: String,
    subscription: String,
    delivery_attempt: Option<usize>,
}

pub struct ReceivedMessageView {
    pub message: PubsubMessage,
    pub ack_id: Seq<char>,
    pub subscription: Seq<char>,
    pub delivery_attempt: Option<usize>,
}

impl View for ReceivedMessage {
    type V = ReceivedMessageView;

    closed spec fn view(&self) -> ReceivedMessageView {
        ReceivedMessageView {
            message: self.message,
            ack_id: self.ack_id@,
            subscription: self.subscription@,
            delivery_attempt: self.delivery_attempt,
        }
    }
}

/// The handle that leases the message of `envelope` on `subscription`.
pub open spec fn lease_of(subscription: Seq<char>, envelope: Envelope) -> ReceivedMessageView
    recommends
        envelope.message is Some,
{
    ReceivedMessageView {
        message: envelope.message->0,
        ack_id: envelope.ack_id@,
        subscription,
        delivery_attempt: attempt_of(envelope.delivery_attempt),
    }
}

impl ReceivedMessage {
    /// A delivery attempt, where there is one, is at least the first.
    #[verifier::type_invariant]
    closed spec fn counted_from_one(&self) -> bool {
        self.delivery_attempt matches Some(n) ==> n >= 1
    }

    pub(crate) fn new(
        subscription: String,
        message: PubsubMessage,
        ack_id: String,
        delivery_attempt: Option<usize>,
    ) -> (handle: Self)
        requires
            delivery_attempt matches Some(n) ==> n >= 1,
        ensures
            handle@ == (ReceivedMessageView {
                message,
                ack_id: ack_id@,
                subscription: subscription@,
                delivery_attempt,
            }),
    {
        Self { message, ack_id, subscription, delivery_attempt }
    }

    /// The message.
    pub fn message(&self) -> (message: &PubsubMessage)
        ensures
            *message == self@.message,
    {
        &self.message
    }

    /// Gives up the lease handle for the message it holds.
    pub fn into_message(self) -> (message: PubsubMessage)
        ensures
            message == self@.message,
    {
        self.message
    }

    /// The lease token.
    pub fn ack_id(&self) -> (ack_id: &str)
        ensures
            ack_id@ == self@.ack_id,
    {
        self.ack_id.as_str()
    }

    /// The request that acknowledges this lease, and no other.
    pub fn ack(&self) -> (request: AcknowledgeRequest)
        ensures
            request@ == (AcknowledgeRequestView {
                subscription: self@.subscription,
                ack_ids: seq![self@.ack_id],
            }),
    {
        let mut ack_ids: Vec<String> = Vec::new();
        ack_ids.push(self.ack_id.clone());
        assert(ack_ids.deep_view() =~= seq![self@.ack_id]);
        match ack(self.subscription.clone(), ack_ids) {
            Batch::Call(request) => request,
            Batch::Succeeded => unreached(),
        }
    }

    /// The request that hands this lease back for redelivery at once.
    pub fn nack(&self) -> (request: ModifyAckDeadlineRequest)
        ensures
            request@ == (ModifyAckDeadlineRequestView {
                subscription: self@.subscription,
                ack_ids: seq![self@.ack_id],
                ack_deadline_seconds: 0,
            }),
    {
        let mut ack_ids: Vec<String> = Vec::new();
        ack_ids.push(self.ack_id.clone());
        assert(ack_ids.deep_view() =~= seq![self@.ack_id]);
        match nack(self.subscription.clone(), ack_ids) {
            Batch::Call(request) => request,
            Batch::Succeeded => unreached(),
        }
    }

    /// The request that moves the redelivery deadline of this lease to
    /// `ack_deadline_seconds` from now. The value is not checked here: the
    /// broker accepts or refuses it.
    pub fn modify_ack_deadline(&self, ack_deadline_seconds: i32) -> (request:
        ModifyAckDeadlineRequest)
        ensures
            request@ == (ModifyAckDeadlineRequestView {
                subscription: self@.subscription,
                ack_ids: seq![self@.ack_id],
                ack_deadline_seconds: ack_deadline_seconds as int,
            }),
    {
        let mut ack_ids: Vec<String> = Vec::new();
        ack_ids.push(self.ack_id.clone());
        assert(ack_ids.deep_view() =~= seq![self@.ack_id]);
        match modify_ack_deadline(self.subscription.clone(), ack_ids, ack_deadline_seconds) {
            Batch::Call(request) => request,
            Batch::Succeeded => unreached(),
        }
    }

    /// The approximate number of times that the broker has tried to deliver
    /// the message: nothing where the broker keeps no count, else at least
    /// one.
    pub fn delivery_attempt(&self) -> (attempt: Option<usize>)
        ensures
            attempt == self@.delivery_attempt,
            attempt matches Some(n) ==> n >= 1,
    {
        proof {
            use_type_invariant(self);
        }
        self.delivery_attempt
    }
}

} // verus!
