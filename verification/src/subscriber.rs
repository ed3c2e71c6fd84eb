//! The subscriber engine: the task that opens the pull stream, reads it and
//! opens it again when it breaks, and the bookkeeping of the two background
//! tasks of one subscriber.
//!
//! The receiver is a state machine. The caller performs the action it is
//! given (opens a stream, reads the next frame raced against cancellation,
//! dispatches a frame) and reports the event that the action ended with; the
//! receiver answers with the next action until it stops.

use crate::config::{default_retry_setting, SubscriberConfig};
use crate::dispatch::{handle_message, Dispatcher, DispatcherView};
use crate::keepalive::{lemma_closed_once_on_cancellation, PingEvent, Pinger, PingerView};
use crate::message::Envelope;
use crate::rpc::{
    create_empty_streaming_pull_request, StreamingPullRequest, StreamingPullRequestView,
};
use crate::status::{contains_code, Code};
use vstd::prelude::*;

verus! {

/// How often a stream that could not be opened because the call was cancelled
/// is opened again, over the whole life of a receiver.
pub const MAX_CANCEL_RETRIES: u32 = 5;

/// The pause before a stream is opened again after a cancelled call, in
/// milliseconds.
pub const CANCEL_RETRY_MILLIS: u64 = 1000;

/// Where the receiver stands.
#[derive(Clone, Copy, Debug, PartialEq, Eq, Structural)]
pub enum Phase {
    /// A stream is being opened, for the first time or again.
    Connecting,
    /// A stream is open and is being read.
    Streaming,
    /// A frame that came in on the open stream is being dispatched.
    Dispatching,
    /// The receiver has stopped for good.
    Terminated,
}

/// What an action of the receiver ended with.
#[derive(Debug)]
pub enum Event {
    /// The stream is open.
    Opened,
    /// The stream could not be opened: the call ended with this status code.
    OpenFailed(Code),
    /// Cancellation was requested before the next frame came.
    Cancelled,
    /// The broker ended the stream without an error.
    StreamEnded,
    /// A frame came in, with these entries.
    Frame(Vec<Envelope>),
    /// Reading the stream failed with this status code.
    ReadFailed(Code),
    /// The dispatch of the last frame has come to its end, with so many
    /// leases handed back to the broker.
    Dispatched(usize),
}

/// What the receiver asks for next.
pub enum Action {
    /// Open a stream whose first request is this one, and whose further
    /// requests are the pings of the keepalive task.
    Open(StreamingPullRequest),
    /// Wait for so many milliseconds, then open a stream with this request.
    OpenAfter(u64, StreamingPullRequest),
    /// Wait for the next frame of the stream or for cancellation, whichever
    /// comes first.
    Read,
    /// Run this dispatch to its end, make the call it ends with, if any, and
    /// report the number of leases that were handed back. A failure of that
    /// call is not reported: it is no failure of the stream.
    Dispatch(Dispatcher),
    /// Close the outbound queue and end the task.
    CloseQueue,
    /// End the task. Its hold on the outbound queue ends with it.
    Stop,
}

pub enum ActionView {
    Open(StreamingPullRequestView),
    OpenAfter(nat, StreamingPullRequestView),
    Read,
    Dispatch(DispatcherView),
    CloseQueue,
    Stop,
}

impl View for Action {
    type V = ActionView;

    open spec fn view(&self) -> ActionView {
        match self {
            Action::Open(request) => ActionView::Open(request@),
            Action::OpenAfter(millis, request) => ActionView::OpenAfter(*millis as nat, request@),
            Action::Read => ActionView::Read,
            Action::Dispatch(dispatcher) => ActionView::Dispatch(dispatcher@),
            Action::CloseQueue => ActionView::CloseQueue,
            Action::Stop => ActionView::Stop,
        }
    }
}

pub struct ReceiverView {
    pub subscription: Seq<char>,
    pub stream_ack_deadline_seconds: int,
    pub max_outstanding_messages: int,
    pub max_outstanding_bytes: int,
    /// The status codes on which the stream is opened again.
    pub retryable_codes: Seq<Code>,
    /// How often a cancelled call to open the stream has been retried.
    pub cancel_retry: nat,
    pub phase: Phase,
}

impl ReceiverView {
    /// The first request of every stream that the receiver opens: the
    /// subscription, the stream's deadline and both flow-control caps.
    pub open spec fn request(self) -> StreamingPullRequestView {
        StreamingPullRequestView::opening(
            self.subscription,
            self.stream_ack_deadline_seconds,
            self.max_outstanding_messages,
            self.max_outstanding_bytes,
        )
    }

    /// Whether `event` can end what the receiver is doing.
    pub open spec fn awaits(self, event: Event) -> bool {
        match self.phase {
            Phase::Connecting => event is Opened || event is OpenFailed,
            Phase::Streaming => event is Cancelled || event is StreamEnded || event is Frame
                || event is ReadFailed,
            Phase::Dispatching => event is Dispatched,
            Phase::Terminated => false,
        }
    }

    /// Whether a stream that could not be opened with `code` is opened again.
    pub open spec fn retries_open(self, code: Code) -> bool {
        if code == Code::Cancelled {
            self.cancel_retry < MAX_CANCEL_RETRIES
        } else {
            self.retryable_codes.contains(code)
        }
    }

    /// Whether a stream that broke with `code` while it was read is opened
    /// again.
    pub open spec fn retries_read(self, code: Code) -> bool {
        self.retryable_codes.contains(code)
    }

    /// The receiver after `event`.
    pub open spec fn after(self, event: Event) -> ReceiverView {
        match event {
            Event::Opened => ReceiverView { phase: Phase::Streaming, ..self },
            Event::OpenFailed(code) => if !self.retries_open(code) {
                ReceiverView { phase: Phase::Terminated, ..self }
            } else if code == Code::Cancelled {
                ReceiverView { cancel_retry: self.cancel_retry + 1, ..self }
            } else {
                self
            },
            Event::Cancelled => ReceiverView { phase: Phase::Terminated, ..self },
            Event::StreamEnded => ReceiverView { phase: Phase::Terminated, ..self },
            Event::Frame(_) => ReceiverView { phase: Phase::Dispatching, ..self },
            Event::ReadFailed(code) => if self.retries_read(code) {
                ReceiverView { phase: Phase::Connecting, ..self }
            } else {
                ReceiverView { phase: Phase::Terminated, ..self }
            },
            Event::Dispatched(_) => ReceiverView { phase: Phase::Streaming, ..self },
        }
    }

    /// What the receiver asks for in answer to `event`.
    pub open spec fn reaction(self, event: Event) -> ActionView {
        match event {
            Event::Opened => ActionView::Read,
            Event::OpenFailed(code) => if !self.retries_open(code) {
                ActionView::Stop
            } else if code == Code::Cancelled {
                ActionView::OpenAfter(CANCEL_RETRY_MILLIS as nat, self.request())
            } else {
                ActionView::Open(self.request())
            },
            Event::Cancelled => ActionView::CloseQueue,
            Event::StreamEnded => ActionView::Stop,
            Event::Frame(messages) => ActionView::Dispatch(
                DispatcherView::start(self.subscription, messages@),
            ),
            Event::ReadFailed(code) => if self.retries_read(code) {
                ActionView::Open(self.request())
            } else {
                ActionView::Stop
            },
            Event::Dispatched(_) => ActionView::Read,
        }
    }

    /// The receiver after each of `events` in turn.
    pub open spec fn run(self, events: Seq<Event>) -> ReceiverView
        decreases events.len(),
    {
        if events.len() == 0 {
            self
        } else {
            self.run(events.drop_last()).after(events.last())
        }
    }

    /// Each of `events` ends what the receiver is doing when it comes.
    pub open spec fn accepts(self, events: Seq<Event>) -> bool
        decreases events.len(),
    {
        events.len() == 0 || (self.accepts(events.drop_last()) && self.run(
            events.drop_last(),
        ).awaits(events.last()))
    }

    /// What the receiver asks for in answer to the last of `events`.
    pub open spec fn last_reaction(self, events: Seq<Event>) -> ActionView
        recommends
            events.len() > 0,
    {
        self.run(events.drop_last()).reaction(events.last())
    }

    /// How often the receiver has asked for the outbound queue to be closed
    /// over `events`.
    pub open spec fn closes(self, events: Seq<Event>) -> nat
        decreases events.len(),
    {
        if events.len() == 0 {
            0
        } else if self.last_reaction(events) is CloseQueue {
            self.closes(events.drop_last()) + 1
        } else {
            self.closes(events.drop_last())
        }
    }
}

/// How many of `events` are a call to open the stream that was cancelled.
pub open spec fn cancelled_opens(events: Seq<Event>) -> nat
    decreases events.len(),
{
    if events.len() == 0 {
        0
    } else if events.last() == Event::OpenFailed(Code::Cancelled) {
        cancelled_opens(events.drop_last()) + 1
    } else {
        cancelled_opens(events.drop_last())
    }
}

/// The state of the task that opens and reads the pull stream.
#[derive(Debug)]
pub struct Receiver {
    subscription: String,
    stream_ack_deadline_seconds: i32,
    max_outstanding_messages: i64,
    max_outstanding_bytes: i64,
    retryable_codes: Vec<Code>,
    cancel_retry: u32,
    phase: Phase,
}

impl View for Receiver {
    type V = ReceiverView;

    closed spec fn view(&self) -> ReceiverView {
        ReceiverView {
            subscription: self.subscription@,
            stream_ack_deadline_seconds: self.stream_ack_deadline_seconds as int,
            max_outstanding_messages: self.max_outstanding_messages as int,
            max_outstanding_bytes: self.max_outstanding_bytes as int,
            retryable_codes: self.retryable_codes@,
            cancel_retry: self.cancel_retry as nat,
            phase: self.phase,
        }
    }
}

impl Receiver {
    /// Where the receiver stands.
    pub fn phase(&self) -> (phase: Phase)
        ensures
            phase == self@.phase,
    {
        self.phase
    }

    /// Whether `event` can end what the receiver is doing: whether `step`
    /// takes it.
    pub fn awaits(&self, event: &Event) -> (awaited: bool)
        ensures
            awaited == self@.awaits(*event),
    {
        match self.phase {
            Phase::Connecting => match event {
                Event::Opened => true,
                Event::OpenFailed(_) => true,
                _ => false,
            },
            Phase::Streaming => match event {
                Event::Cancelled => true,
                Event::StreamEnded => true,
                Event::Frame(_) => true,
                Event::ReadFailed(_) => true,
                _ => false,
            },
            Phase::Dispatching => match event {
                Event::Dispatched(_) => true,
                _ => false,
            },
            Phase::Terminated => false,
        }
    }

    /// The first request of a stream. It is built anew for every stream: the
    /// broker wants the deadline and the flow-control caps on the first
    /// request of each stream, and refuses them on any later one.
    pub fn request(&self) -> (request: StreamingPullRequest)
        ensures
            request@ == self@.request(),
    {
        let mut request = create_empty_streaming_pull_request();
        request.subscription = self.subscription.clone();
        request.stream_ack_deadline_seconds = self.stream_ack_deadline_seconds;
        request.max_outstanding_messages = self.max_outstanding_messages;
        request.max_outstanding_bytes = self.max_outstanding_bytes;
        request
    }

    /// Takes the event that the last action ended with, and gives the next
    /// action.
    ///
    /// While connecting: an open stream is read. A cancelled call to open is
    /// tried again after a second, five times in the life of the receiver,
    /// and ends the receiver after that; any other failure is tried again at
    /// once if its code is retryable, and ends the receiver if it is not.
    ///
    /// While streaming: cancellation closes the outbound queue and ends the
    /// receiver; the end of the stream ends the receiver; a frame is
    /// dispatched; a failed read opens the stream again at once if its code
    /// is retryable, whatever the code, and ends the receiver if it is not.
    ///
    /// While dispatching: when the dispatch has come to its end the stream is
    /// read on, however many leases were handed back.
    pub fn step(&mut self, event: Event) -> (action: Action)
        requires
            old(self)@.awaits(event),
        ensures
            final(self)@ == old(self)@.after(event),
            action@ == old(self)@.reaction(event),
    {
        match event {
            Event::Opened => {
                self.phase = Phase::Streaming;
                Action::Read
            },
            Event::OpenFailed(code) => {
                if code == Code::Cancelled {
                    if self.cancel_retry < MAX_CANCEL_RETRIES {
                        self.cancel_retry = self.cancel_retry + 1;
                        Action::OpenAfter(CANCEL_RETRY_MILLIS, self.request())
                    } else {
                        self.phase = Phase::Terminated;
                        Action::Stop
                    }
                } else if contains_code(&self.retryable_codes, code) {
                    Action::Open(self.request())
                } else {
                    self.phase = Phase::Terminated;
                    Action::Stop
                }
            },
            Event::Cancelled => {
                self.phase = Phase::Terminated;
                Action::CloseQueue
            },
            Event::StreamEnded => {
                self.phase = Phase::Terminated;
                Action::Stop
            },
            Event::Frame(messages) => {
                self.phase = Phase::Dispatching;
                Action::Dispatch(handle_message(self.subscription.clone(), messages))
            },
            Event::Dispatched(_) => {
                self.phase = Phase::Streaming;
                Action::Read
            },
            Event::ReadFailed(code) => {
                if contains_code(&self.retryable_codes, code) {
                    self.phase = Phase::Connecting;
                    Action::Open(self.request())
                } else {
                    self.phase = Phase::Terminated;
                    Action::Stop
                }
            },
        }
    }

    /// Takes `event` if the receiver waits for it, as `step` does; leaves
    /// the receiver as it is and gives nothing if it does not.
    pub fn try_step(&mut self, event: Event) -> (action: Option<Action>)
        ensures
            old(self)@.awaits(event) ==> action is Some && action->0@ == old(self)@.reaction(event)
                && final(self)@ == old(self)@.after(event),
            !old(self)@.awaits(event) ==> action is None && final(self)@ == old(self)@,
    {
        if self.awaits(&event) {
            Some(self.step(event))
        } else {
            None
        }
    }
}

/// What a receiver is set up with stays as it is, whatever happens: every
/// stream that it opens, the first and each one after a failure, is opened
/// with the same first request, which carries the subscription, the stream's
/// deadline and both caps in full.
pub proof fn lemma_setup_is_kept(start: ReceiverView, events: Seq<Event>)
    ensures
        start.run(events).subscription == start.subscription,
        start.run(events).request() == start.request(),
        start.run(events).retryable_codes == start.retryable_codes,
        events.len() > 0 ==> (start.last_reaction(events) matches ActionView::Open(request)
            ==> request == start.request()),
        events.len() > 0 ==> (start.last_reaction(events) matches ActionView::OpenAfter(_, request)
            ==> request == start.request()),
    decreases events.len(),
{
    if events.len() > 0 {
        lemma_setup_is_kept(start, events.drop_last());
    }
}

/// A receiver that has stopped stays stopped: it takes no further event.
pub proof fn lemma_terminated_is_final(start: ReceiverView, events: Seq<Event>, i: int)
    requires
        start.accepts(events),
        0 <= i <= events.len(),
        start.run(events.take(i)).phase == Phase::Terminated,
    ensures
        i == events.len(),
    decreases events.len(),
{
    if i < events.len() {
        let earlier = events.drop_last();
        if i == events.len() - 1 {
            assert(events.take(i) =~= earlier);
        } else {
            assert(events.take(i) =~= earlier.take(i));
            lemma_terminated_is_final(start, earlier, i);
        }
    }
}

/// A call to open the stream that was cancelled is retried five times in the
/// life of a receiver, each time after a pause of a second; the sixth such
/// call ends the receiver with no further try.
pub proof fn lemma_cancelled_open_budget(start: ReceiverView, events: Seq<Event>)
    requires
        start.cancel_retry == 0,
        start.accepts(events),
    ensures
        cancelled_opens(events) <= MAX_CANCEL_RETRIES + 1,
        start.run(events).cancel_retry == if cancelled_opens(events) <= MAX_CANCEL_RETRIES {
            cancelled_opens(events)
        } else {
            MAX_CANCEL_RETRIES as nat
        },
        cancelled_opens(events) == MAX_CANCEL_RETRIES + 1 ==> start.run(events).phase
            == Phase::Terminated,
        events.len() > 0 && events.last() == Event::OpenFailed(Code::Cancelled) ==> if cancelled_opens(
            events,
        ) <= MAX_CANCEL_RETRIES {
            &&& start.last_reaction(events) == ActionView::OpenAfter(
                CANCEL_RETRY_MILLIS as nat,
                start.request(),
            )
            &&& start.run(events).phase == Phase::Connecting
        } else {
            &&& start.last_reaction(events) == ActionView::Stop
            &&& start.run(events).phase == Phase::Terminated
        },
    decreases events.len(),
{
    if events.len() > 0 {
        lemma_cancelled_open_budget(start, events.drop_last());
        lemma_setup_is_kept(start, events.drop_last());
    }
}

/// Cancellation ends the receiver without an error and has the outbound queue
/// closed, once: whatever came before, frames or none, a receiver that reads
/// a stream answers cancellation by closing the queue and stopping, nothing
/// else makes it close the queue, and nothing follows.
pub proof fn lemma_cancellation_closes_queue_once(start: ReceiverView, events: Seq<Event>)
    requires
        start.accepts(events),
    ensures
        start.closes(events) <= 1,
        start.closes(events) == 1 <==> events.len() > 0 && events.last() is Cancelled,
        events.len() > 0 && events.last() is Cancelled ==> {
            &&& start.last_reaction(events) == ActionView::CloseQueue
            &&& start.run(events).phase == Phase::Terminated
        },
        forall|i: int| 0 <= i < events.len() - 1 ==> !(events[i] is Cancelled),
    decreases events.len(),
{
    if events.len() > 0 {
        let earlier = events.drop_last();
        lemma_cancellation_closes_queue_once(start, earlier);
        assert forall|i: int| 0 <= i < events.len() - 1 implies !(events[i] is Cancelled) by {
            assert(events[i] == earlier[i]);
            if i == earlier.len() - 1 {
                assert(start.run(earlier).phase != Phase::Terminated);
            }
        }
    }
}

/// Once cancellation has reached both tasks, both have ended, whether or not
/// a frame ever came in: the keepalive task ends on cancellation whenever it
/// comes, and the receiver ends on the cancellation that it meets while it
/// reads the stream. Nothing is left running for `done` to wait on forever.
pub proof fn lemma_cancellation_ends_both_tasks(
    pinger: PingerView,
    pings: Seq<PingEvent>,
    receiver: ReceiverView,
    events: Seq<Event>,
)
    requires
        !pinger.stopped,
        pinger.accepts(pings),
        pings.len() > 0 && pings.last() == PingEvent::Cancelled,
        receiver.accepts(events),
        events.len() > 0 && events.last() is Cancelled,
    ensures
        pinger.run(pings).stopped,
        receiver.run(events).phase == Phase::Terminated,
{
    lemma_closed_once_on_cancellation(pinger, pings);
    lemma_cancellation_closes_queue_once(receiver, events);
}

/// One of the two background tasks of a subscriber.
#[derive(Clone, Copy, Debug, PartialEq, Eq, Structural)]
pub enum Task {
    /// The keepalive task.
    Pinger,
    /// The task that opens and reads the stream.
    Receiver,
}

/// The tasks of a subscriber in the order in which their end is waited for:
/// the keepalive task, then the receiver.
pub open spec fn join_order() -> Seq<Task> {
    seq![Task::Pinger, Task::Receiver]
}

/// A running subscriber: its two background tasks, as far as nobody has
/// begun to wait for their end yet.
#[derive(Debug)]
pub struct Subscriber {
    pinger: Option<Task>,
    inner: Option<Task>,
}

impl View for Subscriber {
    type V = Seq<Task>;

    /// The tasks that have not been waited for yet, in the order in which
    /// they are waited for.
    closed spec fn view(&self) -> Seq<Task> {
        let rest = match self.inner {
            Some(task) => seq![task],
            None => Seq::empty(),
        };
        match self.pinger {
            Some(task) => seq![task] + rest,
            None => rest,
        }
    }
}

impl Subscriber {
    /// Each task is kept under its own name, and the keepalive task is the
    /// first to go.
    #[verifier::type_invariant]
    spec fn in_order(&self) -> bool {
        &&& self.pinger matches Some(task) ==> task == Task::Pinger && self.inner is Some
        &&& self.inner matches Some(task) ==> task == Task::Receiver
    }

    /// Starts a subscriber on `subscription`: the handle by which the end of
    /// its two tasks is waited for, the state of its keepalive task, and the
    /// state of its receiver. The receiver is connecting: its caller opens a
    /// stream with `request()` and reports how that ended.
    pub fn start(subscription: String, config: SubscriberConfig) -> (started: (
        Subscriber,
        Pinger,
        Receiver,
    ))
        ensures
            started.0@ == join_order(),
            started.1@ == (PingerView {
                interval_millis: config.ping_interval_millis as nat,
                stopped: false,
            }),
            started.2@ == (ReceiverView {
                subscription: subscription@,
                stream_ack_deadline_seconds: config.stream_ack_deadline_seconds as int,
                max_outstanding_messages: config.max_outstanding_messages as int,
                max_outstanding_bytes: config.max_outstanding_bytes as int,
                retryable_codes: config.retryable_codes(),
                cancel_retry: 0,
                phase: Phase::Connecting,
            }),
    {
        let pinger = Pinger::new(config.ping_interval_millis);
        let retryable_codes = match config.retry_setting {
            Some(setting) => setting.codes,
            None => default_retry_setting().codes,
        };
        let receiver = Receiver {
            subscription,
            stream_ack_deadline_seconds: config.stream_ack_deadline_seconds,
            max_outstanding_messages: config.max_outstanding_messages,
            max_outstanding_bytes: config.max_outstanding_bytes,
            retryable_codes,
            cancel_retry: 0,
            phase: Phase::Connecting,
        };
        let subscriber = Subscriber { pinger: Some(Task::Pinger), inner: Some(Task::Receiver) };
        assert(subscriber@ =~= join_order());
        (subscriber, pinger, receiver)
    }

    /// The next task whose end is to be waited for: the keepalive task, then
    /// the receiver, then nothing, however often it is asked. A task is given
    /// once, so that a wait that was given up is not taken up again.
    pub fn done(&mut self) -> (task: Option<Task>)
        ensures
            old(self)@.len() > 0 ==> task == Some(old(self)@[0]) && final(self)@ == old(
                self,
            )@.drop_first(),
            old(self)@.len() == 0 ==> task is None && final(self)@ == old(self)@,
            exists|waited: int| 0 <= waited <= 2 && old(self)@ == join_order().skip(waited),
    {
        proof {
            use_type_invariant(&*self);
            assert(self.pinger is Some ==> self@ =~= join_order().skip(0));
            assert(self.pinger is None && self.inner is Some ==> self@ =~= join_order().skip(1));
            assert(self.inner is None ==> self@ =~= join_order().skip(2));
        }
        let task = match self.pinger {
            Some(task) => {
                self.pinger = None;
                Some(task)
            },
            None => match self.inner {
                Some(task) => {
                    self.inner = None;
                    Some(task)
                },
                None => None,
            },
        };
        assert(task is Some ==> self@ =~= old(self)@.drop_first());
        task
    }
}

/// Waiting for the end of a subscriber takes two steps at most, the keepalive
/// task first: a subscriber that has just been started names the keepalive
/// task, then the receiver, and from then on nothing.
pub proof fn lemma_done_in_order(unjoined: Seq<Task>, waited: int)
    requires
        0 <= waited <= 2,
        unjoined == join_order().skip(waited),
    ensures
        waited == 0 ==> unjoined.len() == 2 && unjoined[0] == Task::Pinger && unjoined.drop_first()
            == join_order().skip(1),
        waited == 1 ==> unjoined.len() == 1 && unjoined[0] == Task::Receiver
            && unjoined.drop_first() == join_order().skip(2),
        waited == 2 ==> unjoined.len() == 0,
{
    assert(join_order().skip(0).drop_first() =~= join_order().skip(1));
    assert(join_order().skip(1).drop_first() =~= join_order().skip(2));
}

} // verus!
