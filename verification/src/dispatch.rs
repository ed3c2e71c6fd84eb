//! Dispatching one inbound frame: every message of the frame becomes a lease
//! handle that is offered to the consumer, and every handle that the consumer
//! could not be given is handed back to the broker in one batch.
//!
//! The dispatcher does not send anything itself. It hands out one lease
//! handle at a time; the caller offers the handle to the outbound queue,
//! racing the offer against cancellation, and reports how that ended. Only a
//! dispatcher that has been told how its last handle ended gives the next
//! one, and only one that has no handle left gives the batch: the types see
//! to that.

use crate::message::{delivery_attempt_of, lease_of, Envelope, ReceivedMessage, ReceivedMessageView};
use crate::rpc::{modify_ack_deadline_spec, nack, Batch, ModifyAckDeadlineRequest};
use vstd::prelude::*;

verus! {

/// How offering one lease handle to the outbound queue ended.
#[derive(Clone, Copy, Debug, PartialEq, Eq, Structural)]
pub enum Outcome {
    /// The queue took the handle.
    Delivered,
    /// The queue was closed, or cancellation came first: the consumer will
    /// never see the handle.
    Refused,
}

/// The entries of a frame that carry a message, in the order of the frame.
pub open spec fn bearing(frame: Seq<Envelope>) -> Seq<Envelope> {
    frame.filter(|envelope: Envelope| envelope.message is Some)
}

/// The places, in rising order, at which `outcomes` holds `wanted`.
pub open spec fn positions(outcomes: Seq<Outcome>, wanted: Outcome) -> Seq<int>
    decreases outcomes.len(),
{
    if outcomes.len() == 0 {
        Seq::empty()
    } else {
        let earlier = positions(outcomes.drop_last(), wanted);
        if outcomes.last() == wanted {
            earlier.push(outcomes.len() - 1)
        } else {
            earlier
        }
    }
}

/// The dispatch of one frame, as far as it has come.
pub struct DispatcherView {
    /// The subscription that the frame came from.
    pub subscription: Seq<char>,
    /// The frame.
    pub frame: Seq<Envelope>,
    /// How each lease handle that has been settled ended, in the order in
    /// which the handles were handed out.
    pub outcomes: Seq<Outcome>,
    /// Whether a handle has been handed out and not been settled yet.
    pub awaiting: bool,
}

impl DispatcherView {
    /// The dispatch of `frame` before any handle has been handed out.
    pub open spec fn start(subscription: Seq<char>, frame: Seq<Envelope>) -> DispatcherView {
        DispatcherView { subscription, frame, outcomes: Seq::empty(), awaiting: false }
    }

    /// The entries of the frame that are leased: one handle for each.
    pub open spec fn leases(self) -> Seq<Envelope> {
        bearing(self.frame)
    }

    /// Every lease of the frame has been handed out and settled.
    pub open spec fn complete(self) -> bool {
        !self.awaiting && self.outcomes.len() == self.leases().len()
    }

    /// The handles that the queue took, in the order of the frame.
    pub open spec fn delivered(self) -> Seq<ReceivedMessageView> {
        positions(self.outcomes, Outcome::Delivered).map_values(
            |i: int| lease_of(self.subscription, self.leases()[i]),
        )
    }

    /// The tokens of the leases that go back to the broker, in the order of
    /// the frame.
    pub open spec fn nacked(self) -> Seq<Seq<char>> {
        positions(self.outcomes, Outcome::Refused).map_values(|i: int| self.leases()[i].ack_id@)
    }
}

/// What dispatching a frame ends with.
pub struct Dispatched {
    /// The one call that hands the refused leases back to the broker, if
    /// there is any such lease. A failure of that call is not an error of the
    /// dispatch: the leases then come back when their deadline runs out.
    pub nack: Batch<ModifyAckDeadlineRequest>,
    /// The number of leases that were refused.
    pub nacked: usize,
}

/// What a dispatcher keeps, whether or not a handle is out.
struct Frame {
    subscription: String,
    /// What is left of the frame, the next entry last.
    pending: Vec<Envelope>,
    nack_targets: Vec<String>,
    whole: Ghost<Seq<Envelope>>,
    outcomes: Ghost<Seq<Outcome>>,
}

impl Frame {
    spec fn view_with(&self, awaiting: bool) -> DispatcherView {
        DispatcherView {
            subscription: self.subscription@,
            frame: self.whole@,
            outcomes: self.outcomes@,
            awaiting,
        }
    }

    /// What is kept of the frame agrees with what has been handed out, `out`
    /// handles of it not settled, and with what has been reported.
    spec fn inv(&self, out: int) -> bool {
        let whole = self.whole@;
        let taken = whole.len() - self.pending@.len();
        &&& self.pending@.len() <= whole.len()
        &&& forall|i: int|
            0 <= i < self.pending@.len() ==> self.pending@[i] == whole[whole.len() - 1 - i]
        &&& bearing(whole.take(taken)).len() == self.outcomes@.len() + out
        &&& self.nack_targets.deep_view() == self.view_with(false).nacked()
    }
}

/// The dispatcher of one frame, with no lease handle out.
pub struct Dispatcher {
    frame: Frame,
}

/// The dispatcher of one frame while one lease handle is out: it waits to be
/// told how offering that handle ended.
pub struct Offered {
    frame: Frame,
    /// The token of the handle that is out.
    token: String,
}

/// What a dispatcher does next.
pub enum Step {
    /// Offer this lease handle to the outbound queue, racing the offer
    /// against cancellation, and settle the dispatcher with how it ended.
    Offer(ReceivedMessage, Offered),
    /// Every lease of the frame has been settled.
    Done(Dispatched),
}

impl View for Dispatcher {
    type V = DispatcherView;

    closed spec fn view(&self) -> DispatcherView {
        self.frame.view_with(false)
    }
}

impl View for Offered {
    type V = DispatcherView;

    closed spec fn view(&self) -> DispatcherView {
        self.frame.view_with(true)
    }
}

proof fn lemma_bearing_step(frame: Seq<Envelope>, taken: int)
    requires
        0 <= taken < frame.len(),
    ensures
        bearing(frame.take(taken + 1)) == if frame[taken].message is Some {
            bearing(frame.take(taken)).push(frame[taken])
        } else {
            bearing(frame.take(taken))
        },
{
    reveal(Seq::filter);
    assert(frame.take(taken + 1).drop_last() =~= frame.take(taken));
}

proof fn lemma_bearing_prefix(frame: Seq<Envelope>, taken: int)
    requires
        0 <= taken <= frame.len(),
    ensures
        bearing(frame.take(taken)).len() <= bearing(frame).len(),
        forall|i: int|
            0 <= i < bearing(frame.take(taken)).len() ==> bearing(frame.take(taken))[i] == bearing(
                frame,
            )[i],
    decreases frame.len() - taken,
{
    if taken == frame.len() {
        assert(frame.take(taken) =~= frame);
    } else {
        lemma_bearing_step(frame, taken);
        lemma_bearing_prefix(frame, taken + 1);
    }
}

proof fn lemma_positions_push(outcomes: Seq<Outcome>, outcome: Outcome, wanted: Outcome)
    ensures
        positions(outcomes.push(outcome), wanted) == if outcome == wanted {
            positions(outcomes, wanted).push(outcomes.len() as int)
        } else {
            positions(outcomes, wanted)
        },
{
    assert(outcomes.push(outcome).drop_last() =~= outcomes);
}

/// `positions` lists exactly the places that hold `wanted`, each once and in
/// rising order.
pub proof fn lemma_positions(outcomes: Seq<Outcome>, wanted: Outcome)
    ensures
        forall|i: int|
            positions(outcomes, wanted).contains(i) <==> (0 <= i < outcomes.len() && outcomes[i]
                == wanted),
        forall|j: int, k: int|
            0 <= j < k < positions(outcomes, wanted).len() ==> positions(outcomes, wanted)[j]
                < positions(outcomes, wanted)[k],
        positions(outcomes, wanted).no_duplicates(),
    decreases outcomes.len(),
{
    if outcomes.len() > 0 {
        let earlier = positions(outcomes.drop_last(), wanted);
        let last = outcomes.len() - 1;
        lemma_positions(outcomes.drop_last(), wanted);
        assert forall|i: int| earlier.contains(i) implies 0 <= i < last && outcomes[i]
            == wanted by {
            assert(outcomes.drop_last()[i] == outcomes[i]);
        }
        assert forall|i: int| 0 <= i < last && outcomes[i] == wanted implies earlier.contains(
            i,
        ) by {
            assert(outcomes.drop_last()[i] == outcomes[i]);
        }
        if outcomes.last() == wanted {
            let all = earlier.push(last);
            assert(all[earlier.len() as int] == last);
            assert forall|i: int| all.contains(i) <==> (0 <= i < outcomes.len() && outcomes[i]
                == wanted) by {
                if 0 <= i < last && outcomes[i] == wanted {
                    let j = choose|j: int| 0 <= j < earlier.len() && earlier[j] == i;
                    assert(all[j] == i);
                }
            }
            assert forall|j: int, k: int| 0 <= j < k < all.len() implies all[j] < all[k] by {
                assert(earlier.contains(all[j]));
            }
        }
    }
}

/// A lease that has been settled went one way and one way only: to the
/// consumer or back to the broker. Once the dispatch is complete that holds
/// of every lease of the frame, so that the handles delivered and the leases
/// handed back add up to the messages of the frame.
pub proof fn lemma_delivered_or_nacked(dispatch: DispatcherView)
    requires
        dispatch.outcomes.len() <= dispatch.leases().len(),
    ensures
        forall|i: int|
            0 <= i < dispatch.outcomes.len() ==> (positions(
                dispatch.outcomes,
                Outcome::Delivered,
            ).contains(i) != positions(dispatch.outcomes, Outcome::Refused).contains(i)),
        positions(dispatch.outcomes, Outcome::Delivered).no_duplicates(),
        positions(dispatch.outcomes, Outcome::Refused).no_duplicates(),
        dispatch.delivered().len() + dispatch.nacked().len() == dispatch.outcomes.len(),
        dispatch.complete() ==> dispatch.delivered().len() + dispatch.nacked().len()
            == dispatch.leases().len(),
{
    lemma_positions(dispatch.outcomes, Outcome::Delivered);
    lemma_positions(dispatch.outcomes, Outcome::Refused);
    lemma_positions_total(dispatch.outcomes);
    assert forall|i: int| 0 <= i < dispatch.outcomes.len() implies (positions(
        dispatch.outcomes,
        Outcome::Delivered,
    ).contains(i) != positions(dispatch.outcomes, Outcome::Refused).contains(i)) by {
        assert(positions(dispatch.outcomes, Outcome::Refused).contains(i) <==> dispatch.outcomes[i]
            == Outcome::Refused);
    }
}

proof fn lemma_positions_total(outcomes: Seq<Outcome>)
    ensures
        positions(outcomes, Outcome::Delivered).len() + positions(outcomes, Outcome::Refused).len()
            == outcomes.len(),
    decreases outcomes.len(),
{
    if outcomes.len() > 0 {
        lemma_positions_total(outcomes.drop_last());
    }
}

/// Where the queue takes no handle at all, every lease of the frame goes back
/// to the broker: the batch holds the token of each, in the order of the
/// frame, and nothing is delivered.
pub proof fn lemma_nothing_taken(dispatch: DispatcherView)
    requires
        dispatch.complete(),
        forall|i: int| 0 <= i < dispatch.outcomes.len() ==> dispatch.outcomes[i] is Refused,
    ensures
        dispatch.delivered().len() == 0,
        dispatch.nacked() == dispatch.leases().map_values(|lease: Envelope| lease.ack_id@),
        dispatch.nacked().len() == dispatch.leases().len(),
{
    lemma_all_refused(dispatch.outcomes);
}

proof fn lemma_all_refused(outcomes: Seq<Outcome>)
    requires
        forall|i: int| 0 <= i < outcomes.len() ==> outcomes[i] is Refused,
    ensures
        positions(outcomes, Outcome::Delivered).len() == 0,
        positions(outcomes, Outcome::Refused) == Seq::new(outcomes.len(), |i: int| i),
    decreases outcomes.len(),
{
    if outcomes.len() > 0 {
        lemma_all_refused(outcomes.drop_last());
    }
}

/// Begins the dispatch of one frame that came in on `subscription`.
pub fn handle_message(subscription: String, messages: Vec<Envelope>) -> (dispatcher: Dispatcher)
    ensures
        dispatcher@ == DispatcherView::start(subscription@, messages@),
{
    let ghost whole = messages@;
    let mut messages = messages;
    let mut pending: Vec<Envelope> = Vec::new();
    while messages.len() > 0
        invariant
            messages@.len() + pending@.len() == whole.len(),
            forall|i: int| 0 <= i < messages@.len() ==> messages@[i] == whole[i],
            forall|i: int|
                0 <= i < pending@.len() ==> pending@[i] == whole[whole.len() - 1 - i],
        decreases messages.len(),
    {
        let envelope = messages.pop().unwrap();
        pending.push(envelope);
    }
    let nack_targets: Vec<String> = Vec::new();
    let frame = Frame {
        subscription,
        pending,
        nack_targets,
        whole: Ghost(whole),
        outcomes: Ghost(Seq::empty()),
    };
    proof {
        reveal(Seq::filter);
        assert(frame.nack_targets.deep_view() =~= frame.view_with(false).nacked());
    }
    Dispatcher { frame }
}

impl Dispatcher {
    #[verifier::type_invariant]
    spec fn settled(&self) -> bool {
        self.frame.inv(0)
    }

    /// The lease handle of the next message of the frame, to be offered to
    /// the outbound queue; or, when every lease of the frame has been
    /// settled, the number of leases that were refused and the one call that
    /// hands all of them back to the broker at once.
    pub fn next(self) -> (step: Step)
        ensures
            match step {
                Step::Offer(lease, offered) => {
                    &&& self@.outcomes.len() < self@.leases().len()
                    &&& lease@ == lease_of(
                        self@.subscription,
                        self@.leases()[self@.outcomes.len() as int],
                    )
                    &&& offered@ == (DispatcherView { awaiting: true, ..self@ })
                },
                Step::Done(dispatched) => {
                    &&& self@.complete()
                    &&& dispatched.nack@ == modify_ack_deadline_spec(
                        self@.subscription,
                        self@.nacked(),
                        0,
                    )
                    &&& dispatched.nacked == self@.nacked().len()
                    &&& dispatched.nacked == 0 <==> dispatched.nack is Succeeded
                },
            },
    {
        proof {
            use_type_invariant(&self);
        }
        let Dispatcher { frame } = self;
        let Frame { subscription, mut pending, nack_targets, whole, outcomes } = frame;
        while pending.len() > 0
            invariant
                pending@.len() <= whole@.len(),
                forall|i: int|
                    0 <= i < pending@.len() ==> pending@[i] == whole@[whole@.len() - 1 - i],
                bearing(whole@.take(whole@.len() - pending@.len())).len() == outcomes@.len(),
                subscription@ == self@.subscription,
                whole@ == self@.frame,
                outcomes@ == self@.outcomes,
                nack_targets.deep_view() == self@.nacked(),
            decreases pending.len(),
        {
            let ghost taken = whole@.len() - pending@.len();
            proof {
                lemma_bearing_step(whole@, taken);
                lemma_bearing_prefix(whole@, taken + 1);
            }
            let envelope = pending.pop().unwrap();
            let Envelope { ack_id, message, delivery_attempt } = envelope;
            match message {
                Some(message) => {
                    let attempt = delivery_attempt_of(delivery_attempt);
                    let lease = ReceivedMessage::new(
                        subscription.clone(),
                        message,
                        ack_id.clone(),
                        attempt,
                    );
                    let frame = Frame { subscription, pending, nack_targets, whole, outcomes };
                    return Step::Offer(lease, Offered { frame, token: ack_id });
                },
                None => {},
            }
        }
        proof {
            assert(whole@.take(whole@.len() as int) =~= whole@);
        }
        let nacked = nack_targets.len();
        let nack = nack(subscription, nack_targets);
        Step::Done(Dispatched { nack, nacked })
    }
}

impl Offered {
    #[verifier::type_invariant]
    spec fn one_out(&self) -> bool {
        &&& self.frame.inv(1)
        &&& self.token@ == bearing(self.frame.whole@)[self.frame.outcomes@.len() as int].ack_id@
    }

    /// Records how offering the handle that is out has ended. A refused
    /// handle has its lease put on the batch that goes back to the broker.
    pub fn settle(self, outcome: Outcome) -> (dispatcher: Dispatcher)
        ensures
            dispatcher@ == (DispatcherView {
                outcomes: self@.outcomes.push(outcome),
                awaiting: false,
                ..self@
            }),
    {
        proof {
            use_type_invariant(&self);
            lemma_positions_push(self.frame.outcomes@, outcome, Outcome::Refused);
        }
        let ghost before = self@;
        let Offered { frame, token } = self;
        let Frame { subscription, pending, mut nack_targets, whole, outcomes } = frame;
        let ghost targets = nack_targets.deep_view();
        match outcome {
            Outcome::Refused => {
                nack_targets.push(token);
                assert(nack_targets.deep_view() =~= targets.push(token@));
            },
            Outcome::Delivered => {},
        }
        let frame = Frame {
            subscription,
            pending,
            nack_targets,
            whole,
            outcomes: Ghost(outcomes@.push(outcome)),
        };
        proof {
            let after = frame.view_with(false);
            if outcome == Outcome::Refused {
                assert(positions(after.outcomes, Outcome::Refused) == positions(
                    before.outcomes,
                    Outcome::Refused,
                ).push(before.outcomes.len() as int));
                assert(after.nacked() =~= before.nacked().push(token@));
            }
        }
        Dispatcher { frame }
    }
}

} // verus!
