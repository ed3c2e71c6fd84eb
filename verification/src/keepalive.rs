//! The keepalive task: a ping on the outgoing half of the stream at a fixed
//! interval, until cancellation.
//!
//! A pull stream on which the client sends nothing counts as idle and may be
//! ended by the broker. The caller races a timer of `interval_millis` against
//! cancellation, reports which of the two came first, and does what the
//! pinger answers.

use vstd::prelude::*;

verus! {

/// What the keepalive task waited for and got.
#[derive(Clone, Copy, Debug, PartialEq, Eq, Structural)]
pub enum PingEvent {
    /// The interval has passed.
    Tick,
    /// Cancellation was requested.
    Cancelled,
}

/// What the keepalive task does next.
#[derive(Clone, Copy, Debug, PartialEq, Eq, Structural)]
pub enum PingAction {
    /// Send one ping token on the outgoing channel, whether or not anything
    /// takes it, and wait again.
    Ping,
    /// Close the outgoing channel and end the task.
    Close,
}

pub struct PingerView {
    pub interval_millis: nat,
    pub stopped: bool,
}

impl PingerView {
    /// What the pinger answers to `event`.
    pub open spec fn reaction(self, event: PingEvent) -> PingAction {
        match event {
            PingEvent::Tick => PingAction::Ping,
            PingEvent::Cancelled => PingAction::Close,
        }
    }

    /// The pinger after `event`.
    pub open spec fn after(self, event: PingEvent) -> PingerView {
        match event {
            PingEvent::Tick => self,
            PingEvent::Cancelled => PingerView { stopped: true, ..self },
        }
    }

    /// The pinger after each of `events` in turn.
    pub open spec fn run(self, events: Seq<PingEvent>) -> PingerView
        decreases events.len(),
    {
        if events.len() == 0 {
            self
        } else {
            self.run(events.drop_last()).after(events.last())
        }
    }

    /// No event of `events` comes after the pinger has stopped.
    pub open spec fn accepts(self, events: Seq<PingEvent>) -> bool
        decreases events.len(),
    {
        events.len() == 0 || (self.accepts(events.drop_last()) && !self.run(
            events.drop_last(),
        ).stopped)
    }

    /// How often the pinger has closed the outgoing channel over `events`.
    pub open spec fn closes(self, events: Seq<PingEvent>) -> nat
        decreases events.len(),
    {
        if events.len() == 0 {
            0
        } else if self.run(events.drop_last()).reaction(events.last()) == PingAction::Close {
            self.closes(events.drop_last()) + 1
        } else {
            self.closes(events.drop_last())
        }
    }
}

/// The state of the keepalive task.
#[derive(Debug)]
pub struct Pinger {
    interval_millis: u64,
    stopped: bool,
}

impl View for Pinger {
    type V = PingerView;

    closed spec fn view(&self) -> PingerView {
        PingerView { interval_millis: self.interval_millis as nat, stopped: self.stopped }
    }
}

impl Pinger {
    /// A pinger that has not stopped, for the given interval.
    pub fn new(interval_millis: u64) -> (pinger: Pinger)
        ensures
            pinger@ == (PingerView { interval_millis: interval_millis as nat, stopped: false }),
    {
        Pinger { interval_millis, stopped: false }
    }

    /// The time to wait between two pings, in milliseconds.
    pub fn interval_millis(&self) -> (millis: u64)
        ensures
            millis == self@.interval_millis,
    {
        self.interval_millis
    }

    /// Whether the task has ended.
    pub fn is_stopped(&self) -> (stopped: bool)
        ensures
            stopped == self@.stopped,
    {
        self.stopped
    }

    /// Answers what came first, the timer or cancellation: a ping for the
    /// timer, the end of the task for cancellation.
    pub fn step(&mut self, event: PingEvent) -> (action: PingAction)
        requires
            !old(self)@.stopped,
        ensures
            action == old(self)@.reaction(event),
            final(self)@ == old(self)@.after(event),
    {
        match event {
            PingEvent::Tick => PingAction::Ping,
            PingEvent::Cancelled => {
                self.stopped = true;
                PingAction::Close
            },
        }
    }

    /// Answers `event` as `step` does if the task has not ended; gives
    /// nothing if it has.
    pub fn try_step(&mut self, event: PingEvent) -> (action: Option<PingAction>)
        ensures
            !old(self)@.stopped ==> action == Some(old(self)@.reaction(event)) && final(self)@
                == old(self)@.after(event),
            old(self)@.stopped ==> action is None && final(self)@ == old(self)@,
    {
        if self.stopped {
            None
        } else {
            Some(self.step(event))
        }
    }
}

/// The outgoing channel is closed when cancellation comes, then and only
/// then, and so at most once: cancellation ends the task, and a task that has
/// ended takes no further event.
pub proof fn lemma_closed_once_on_cancellation(start: PingerView, events: Seq<PingEvent>)
    requires
        !start.stopped,
        start.accepts(events),
    ensures
        start.closes(events) <= 1,
        start.run(events).stopped <==> start.closes(events) == 1,
        start.run(events).stopped <==> events.len() > 0 && events.last() == PingEvent::Cancelled,
        forall|i: int| 0 <= i < events.len() - 1 ==> events[i] == PingEvent::Tick,
        start.run(events).interval_millis == start.interval_millis,
    decreases events.len(),
{
    if events.len() > 0 {
        let earlier = events.drop_last();
        lemma_closed_once_on_cancellation(start, earlier);
        assert forall|i: int| 0 <= i < events.len() - 1 implies events[i] == PingEvent::Tick by {
            assert(events[i] == earlier[i]);
            if i == earlier.len() - 1 {
                assert(!start.run(earlier).stopped);
            }
        }
    }
}

} // verus!
