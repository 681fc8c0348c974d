use vstd::prelude::*;

verus! {

/// What a fanout session learns on one turn of its loop.
pub enum SessionEvent {
    /// The bus handed over the next line.
    Line(String),
    /// The bus dropped this many lines that the subscriber was too slow to take.
    Lagged(u64),
    /// The bus has no producer left.
    BusClosed,
    /// The last forwarded line was written to the client.
    Sent,
    /// Writing to the client failed.
    SendFailed,
    /// The client sent a frame.
    Inbound,
    /// Reading from the client failed.
    InboundError,
    /// The client closed its side.
    InboundEnd,
}

/// What a fanout session does next.
pub enum SessionAction {
    /// Write this line to the client as a text frame.
    Forward(String),
    /// Wait for the next event.
    Continue,
    /// End the session and release its subscription.
    End,
}

/// The state of one client's fanout session.
pub struct FanoutSession {
    /// Whether the session has ended.
    pub ended: bool,
    /// Lines the bus dropped for this subscriber, saturating at the maximum.
    pub missed: u64,
    /// Lines written to the client, saturating at the maximum.
    pub forwarded: u64,
}

/// Whether an event ends a session: the bus closed, or the transport failed or
/// was closed in either direction.
pub open spec fn ends_session(e: SessionEvent) -> bool {
    e is BusClosed || e is SendFailed || e is InboundError || e is InboundEnd
}

/// Addition that stops at the largest `u64`.
pub open spec fn saturating_sum(a: u64, b: u64) -> u64 {
    if a + b > u64::MAX {
        u64::MAX
    } else {
        (a + b) as u64
    }
}

/// The session after one event. An ended session stays as it is.
pub open spec fn next_state(s: FanoutSession, e: SessionEvent) -> FanoutSession {
    if s.ended {
        s
    } else {
        match e {
            SessionEvent::Lagged(n) => FanoutSession { missed: saturating_sum(s.missed, n), ..s },
            SessionEvent::Sent => FanoutSession { forwarded: saturating_sum(s.forwarded, 1), ..s },
            _ => if ends_session(e) {
                FanoutSession { ended: true, ..s }
            } else {
                s
            },
        }
    }
}

/// What the session does on one event: a line from the bus is forwarded, an
/// ending event ends it, and anything else lets it wait on.
pub open spec fn next_action(s: FanoutSession, e: SessionEvent) -> SessionAction {
    if s.ended || ends_session(e) {
        SessionAction::End
    } else {
        match e {
            SessionEvent::Line(line) => SessionAction::Forward(line),
            _ => SessionAction::Continue,
        }
    }
}

/// The session after a whole run of events, in order.
pub open spec fn run(s: FanoutSession, events: Seq<SessionEvent>) -> FanoutSession
    decreases events.len(),
{
    if events.len() == 0 {
        s
    } else {
        run(next_state(s, events[0]), events.drop_first())
    }
}

fn add_saturating(a: u64, b: u64) -> (r: u64)
    ensures
        r == saturating_sum(a, b),
{
    if a > u64::MAX - b {
        u64::MAX
    } else {
        a + b
    }
}

impl FanoutSession {
    /// A session that has just subscribed.
    pub fn new() -> (r: FanoutSession)
        ensures
            !r.ended,
            r.missed == 0,
            r.forwarded == 0,
    {
        FanoutSession { ended: false, missed: 0, forwarded: 0 }
    }

    /// Whether the session has ended.
    pub fn is_ended(&self) -> (r: bool)
        ensures
            r == self.ended,
    {
        self.ended
    }

    /// Takes one event and says what to do next.
    pub fn step(&mut self, event: SessionEvent) -> (r: SessionAction)
        ensures
            *final(self) == next_state(*old(self), event),
            r == next_action(*old(self), event),
    {
        if self.ended {
            return SessionAction::End;
        }
        match event {
            SessionEvent::Line(line) => SessionAction::Forward(line),
            SessionEvent::Lagged(n) => {
                self.missed = add_saturating(self.missed, n);
                SessionAction::Continue
            },
            SessionEvent::Sent => {
                self.forwarded = add_saturating(self.forwarded, 1);
                SessionAction::Continue
            },
            SessionEvent::Inbound => SessionAction::Continue,
            SessionEvent::BusClosed
            | SessionEvent::SendFailed
            | SessionEvent::InboundError
            | SessionEvent::InboundEnd => {
                self.ended = true;
                SessionAction::End
            },
        }
    }
}

/// An ended session stays ended, whatever follows.
pub proof fn lemma_ended_session_stays(s: FanoutSession, events: Seq<SessionEvent>)
    requires
        s.ended,
    ensures
        run(s, events) == s,
    decreases events.len(),
{
    if events.len() > 0 {
        lemma_ended_session_stays(next_state(s, events[0]), events.drop_first());
    }
}

/// A session ends once the client closes its side, a write to the client
/// fails, the transport reports an error, or the bus closes: any one of these,
/// anywhere in a run, leaves the session ended at the end of the run.
pub proof fn lemma_session_ends_on_trigger(s: FanoutSession, events: Seq<SessionEvent>, i: int)
    requires
        0 <= i < events.len(),
        ends_session(events[i]),
    ensures
        run(s, events).ended,
    decreases events.len(),
{
    let t = next_state(s, events[0]);
    if i == 0 {
        assert(t.ended);
        lemma_ended_session_stays(t, events.drop_first());
    } else {
        lemma_session_ends_on_trigger(t, events.drop_first(), i - 1);
    }
}

/// Lines, lag reports, successful writes and inbound frames never end a live
/// session: a subscriber that falls behind keeps its connection.
pub proof fn lemma_lag_keeps_session(s: FanoutSession, events: Seq<SessionEvent>)
    requires
        !s.ended,
        forall|i: int| 0 <= i < events.len() ==> !ends_session(#[trigger] events[i]),
    ensures
        !run(s, events).ended,
        run(s, events).missed >= s.missed,
    decreases events.len(),
{
    if events.len() > 0 {
        let rest = events.drop_first();
        assert forall|i: int| 0 <= i < rest.len() implies !ends_session(#[trigger] rest[i]) by {
            assert(rest[i] == events[i + 1]);
        }
        assert(!ends_session(events[0]));
        lemma_lag_keeps_session(next_state(s, events[0]), rest);
    }
}

} // verus!
