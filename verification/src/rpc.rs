//! The requests that the subscriber asks its transport to send, and the
//! batched helpers that build them.

use vstd::prelude::*;

verus! {

/// A request to acknowledge a batch of leases.
#[derive(Clone, Debug, PartialEq, Eq)]
pub struct AcknowledgeRequest {
    pub subscription: String,
    pub ack_ids: Vec<String>,
}

pub struct AcknowledgeRequestView {
    pub subscription: Seq<char>,
    pub ack_ids: Seq<Seq<char>>,
}

impl View for AcknowledgeRequest {
    type V = AcknowledgeRequestView;

    open spec fn view(&self) -> AcknowledgeRequestView {
        AcknowledgeRequestView {
            subscription: self.subscription@,
            ack_ids: self.ack_ids.deep_view(),
        }
    }
}

/// A request to move the redelivery deadline of a batch of leases. A deadline
/// of zero seconds hands the leases back to the broker at once.
#[derive(Clone, Debug, PartialEq, Eq)]
pub struct ModifyAckDeadlineRequest {
    pub subscription: String,
    pub ack_ids: Vec<String>,
    pub ack_deadline_seconds: i32,
}

pub struct ModifyAckDeadlineRequestView {
    pub subscription: Seq<char>,
    pub ack_ids: Seq<Seq<char>>,
    pub ack_deadline_seconds: int,
}

impl View for ModifyAckDeadlineRequest {
    type V = ModifyAckDeadlineRequestView;

    open spec fn view(&self) -> ModifyAckDeadlineRequestView {
        ModifyAckDeadlineRequestView {
            subscription: self.subscription@,
            ack_ids: self.ack_ids.deep_view(),
            ack_deadline_seconds: self.ack_deadline_seconds as int,
        }
    }
}

/// One request on the outgoing half of a pull stream. The first request of a
/// stream names the subscription and carries the stream's deadline and its
/// flow-control caps; every later one is empty and only keeps the stream
/// alive.
#[derive(Clone, Debug, PartialEq, Eq)]
pub struct StreamingPullRequest {
    pub subscription: String,
    pub ack_ids: Vec<String>,
    pub modify_deadline_seconds: Vec<i32>,
    pub modify_deadline_ack_ids: Vec<String>,
    pub stream_ack_deadline_seconds: i32,
    pub client_id: String,
    pub max_outstanding_messages: i64,
    pub max_outstanding_bytes: i64,
}

pub struct StreamingPullRequestView {
    pub subscription: Seq<char>,
    pub ack_ids: Seq<Seq<char>>,
    pub modify_deadline_seconds: Seq<i32>,
    pub modify_deadline_ack_ids: Seq<Seq<char>>,
    pub stream_ack_deadline_seconds: int,
    pub client_id: Seq<char>,
    pub max_outstanding_messages: int,
    pub max_outstanding_bytes: int,
}

impl View for StreamingPullRequest {
    type V = StreamingPullRequestView;

    open spec fn view(&self) -> StreamingPullRequestView {
        StreamingPullRequestView {
            subscription: self.subscription@,
            ack_ids: self.ack_ids.deep_view(),
            modify_deadline_seconds: self.modify_deadline_seconds@,
            modify_deadline_ack_ids: self.modify_deadline_ack_ids.deep_view(),
            stream_ack_deadline_seconds: self.stream_ack_deadline_seconds as int,
            client_id: self.client_id@,
            max_outstanding_messages: self.max_outstanding_messages as int,
            max_outstanding_bytes: self.max_outstanding_bytes as int,
        }
    }
}

impl StreamingPullRequestView {
    /// The request with nothing in it.
    pub open spec fn empty() -> StreamingPullRequestView {
        StreamingPullRequestView {
            subscription: Seq::empty(),
            ack_ids: Seq::empty(),
            modify_deadline_seconds: Seq::empty(),
            modify_deadline_ack_ids: Seq::empty(),
            stream_ack_deadline_seconds: 0,
            client_id: Seq::empty(),
            max_outstanding_messages: 0,
            max_outstanding_bytes: 0,
        }
    }

    /// The first request of a stream on `subscription`.
    pub open spec fn opening(
        subscription: Seq<char>,
        stream_ack_deadline_seconds: int,
        max_outstanding_messages: int,
        max_outstanding_bytes: int,
    ) -> StreamingPullRequestView {
        StreamingPullRequestView {
            subscription,
            stream_ack_deadline_seconds,
            max_outstanding_messages,
            max_outstanding_bytes,
            ..StreamingPullRequestView::empty()
        }
    }
}

/// The request with nothing in it: what keeps an open stream alive.
pub fn create_empty_streaming_pull_request() -> (request: StreamingPullRequest)
    ensures
        request@ == StreamingPullRequestView::empty(),
{
    let request = StreamingPullRequest {
        subscription: String::new(),
        ack_ids: Vec::new(),
        modify_deadline_seconds: Vec::new(),
        modify_deadline_ack_ids: Vec::new(),
        stream_ack_deadline_seconds: 0,
        client_id: String::new(),
        max_outstanding_messages: 0,
        max_outstanding_bytes: 0,
    };
    assert(request.ack_ids.deep_view() =~= Seq::<Seq<char>>::empty());
    assert(request.modify_deadline_ack_ids.deep_view() =~= Seq::<Seq<char>>::empty());
    request
}

/// What a batched helper asks of the transport.
#[derive(Clone, Debug, PartialEq, Eq)]
pub enum Batch<R> {
    /// There was no lease to speak of: the operation has succeeded, and no
    /// call is made.
    Succeeded,
    /// One call is to be made with this request. The status it ends with is
    /// the result of the operation, unchanged; nothing is retried.
    Call(R),
}

impl<R> Batch<R> {
    /// How many calls the transport is asked to make.
    pub open spec fn calls(self) -> nat {
        match self {
            Batch::Succeeded => 0,
            Batch::Call(_) => 1,
        }
    }
}

impl<R: View> View for Batch<R> {
    type V = Option<R::V>;

    /// The request of the one call, if a call is asked for.
    open spec fn view(&self) -> Option<R::V> {
        match self {
            Batch::Succeeded => None,
            Batch::Call(request) => Some(request@),
        }
    }
}

/// What acknowledging `ack_ids` on `subscription` asks of the transport.
pub open spec fn ack_spec(subscription: Seq<char>, ack_ids: Seq<Seq<char>>) -> Option<
    AcknowledgeRequestView,
> {
    if ack_ids.len() == 0 {
        None
    } else {
        Some(AcknowledgeRequestView { subscription, ack_ids })
    }
}

/// What moving the deadline of `ack_ids` on `subscription` asks of the
/// transport.
pub open spec fn modify_ack_deadline_spec(
    subscription: Seq<char>,
    ack_ids: Seq<Seq<char>>,
    ack_deadline_seconds: int,
) -> Option<ModifyAckDeadlineRequestView> {
    if ack_ids.len() == 0 {
        None
    } else {
        Some(ModifyAckDeadlineRequestView { subscription, ack_ids, ack_deadline_seconds })
    }
}

/// Acknowledges every lease in `ack_ids` with one call, or with none where
/// there is no lease.
pub fn ack(subscription: String, ack_ids: Vec<String>) -> (batch: Batch<AcknowledgeRequest>)
    ensures
        batch@ == ack_spec(subscription@, ack_ids.deep_view()),
        ack_ids@.len() == 0 ==> batch is Succeeded && batch.calls() == 0,
        ack_ids@.len() > 0 ==> batch is Call && batch.calls() == 1,
{
    if ack_ids.is_empty() {
        return Batch::Succeeded;
    }
    Batch::Call(AcknowledgeRequest { subscription, ack_ids })
}

/// Moves the redelivery deadline of every lease in `ack_ids` to
/// `ack_deadline_seconds` from now with one call, or with none where there is
/// no lease. The deadline is passed on as it is given.
pub fn modify_ack_deadline(
    subscription: String,
    ack_ids: Vec<String>,
    ack_deadline_seconds: i32,
) -> (batch: Batch<ModifyAckDeadlineRequest>)
    ensures
        batch@ == modify_ack_deadline_spec(
            subscription@,
            ack_ids.deep_view(),
            ack_deadline_seconds as int,
        ),
        ack_ids@.len() == 0 ==> batch is Succeeded && batch.calls() == 0,
        ack_ids@.len() > 0 ==> batch is Call && batch.calls() == 1,
{
    if ack_ids.is_empty() {
        return Batch::Succeeded;
    }
    Batch::Call(ModifyAckDeadlineRequest { subscription, ack_ids, ack_deadline_seconds })
}

/// Hands every lease in `ack_ids` back to the broker for redelivery: a
/// deadline of zero seconds.
pub fn nack(subscription: String, ack_ids: Vec<String>) -> (batch: Batch<
    ModifyAckDeadlineRequest,
>)
    ensures
        batch@ == modify_ack_deadline_spec(subscription@, ack_ids.deep_view(), 0),
        ack_ids@.len() == 0 ==> batch is Succeeded && batch.calls() == 0,
        ack_ids@.len() > 0 ==> batch is Call && batch.calls() == 1,
{
    modify_ack_deadline(subscription, ack_ids, 0)
}

} // verus!
