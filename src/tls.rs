use vstd::prelude::*;

verus! {

/// The state of a TLS listener: waiting for a raw connection, or waiting
/// for the handshake `H` of the connection it accepted last.
pub enum AcceptState<H> {
    Listening,
    Accepting(H),
}

/// What polling the raw listener or the handshake gave.
pub enum AcceptEvent<H, R> {
    /// No raw connection is ready yet.
    RawPending,
    /// The raw accept failed; `R` carries the error.
    RawFailed(R),
    /// A raw connection came in and its handshake `H` has been started.
    RawAccepted(H),
    /// The handshake is still under way.
    HandshakePending,
    /// The handshake ended; `R` carries the connection or the error.
    HandshakeDone(R),
}

/// What the listener's poll does next.
pub enum AcceptPoll<R> {
    /// Report that nothing is ready; the scheduler polls again.
    Pending,
    /// Hand this result to the caller.
    Ready(R),
    /// Poll again at once: a handshake has just started.
    Again,
}

/// Whether the event is one the state can meet: raw-listener events while
/// listening, handshake events while accepting.
pub open spec fn event_fits<H, R>(state: AcceptState<H>, event: AcceptEvent<H, R>) -> bool {
    match event {
        AcceptEvent::RawPending | AcceptEvent::RawFailed(_) | AcceptEvent::RawAccepted(_) => state is Listening,
        AcceptEvent::HandshakePending | AcceptEvent::HandshakeDone(_) => state is Accepting,
    }
}

/// The transition of the TLS listener: a raw connection starts a handshake,
/// and a finished handshake (either way) goes back to listening and is
/// handed over; a raw accept error is handed over as it is.
pub open spec fn next_state<H, R>(state: AcceptState<H>, event: AcceptEvent<H, R>) -> (
    AcceptState<H>,
    AcceptPoll<R>,
) {
    match event {
        AcceptEvent::RawPending => (state, AcceptPoll::Pending),
        AcceptEvent::RawFailed(e) => (state, AcceptPoll::Ready(e)),
        AcceptEvent::RawAccepted(h) => (AcceptState::Accepting(h), AcceptPoll::Again),
        AcceptEvent::HandshakePending => (state, AcceptPoll::Pending),
        AcceptEvent::HandshakeDone(r) => (AcceptState::Listening, AcceptPoll::Ready(r)),
    }
}

impl<H> AcceptState<H> {
    /// The state of a listener that has accepted nothing yet.
    pub fn new() -> (r: Self)
        ensures
            r is Listening,
    {
        AcceptState::Listening
    }

    /// Whether no handshake is under way, so the raw listener is polled next.
    pub fn is_listening(&self) -> (r: bool)
        ensures
            r == (*self is Listening),
    {
        match self {
            AcceptState::Listening => true,
            AcceptState::Accepting(_) => false,
        }
    }

    /// Takes one step on what the last poll gave.
    pub fn step<R>(self, event: AcceptEvent<H, R>) -> (r: (Self, AcceptPoll<R>))
        requires
            event_fits(self, event),
        ensures
            r == next_state(self, event),
    {
        match event {
            AcceptEvent::RawPending => (self, AcceptPoll::Pending),
            AcceptEvent::RawFailed(e) => (self, AcceptPoll::Ready(e)),
            AcceptEvent::RawAccepted(h) => (AcceptState::Accepting(h), AcceptPoll::Again),
            AcceptEvent::HandshakePending => (self, AcceptPoll::Pending),
            AcceptEvent::HandshakeDone(r) => (AcceptState::Listening, AcceptPoll::Ready(r)),
        }
    }
}

/// At most one handshake is under way: a raw connection is accepted only
/// while listening, and every step that hands a result over leaves the
/// listener listening.
pub proof fn lemma_one_handshake_at_a_time<H, R>(state: AcceptState<H>, event: AcceptEvent<H, R>)
    requires
        event_fits(state, event),
    ensures
        event is RawAccepted ==> state is Listening,
        next_state(state, event).1 is Ready ==> next_state(state, event).0 is Listening,
        next_state(state, event).1 is Again ==> next_state(state, event).0 is Accepting,
{
}

} // verus!
