use vstd::prelude::*;

use std::io::ErrorKind;

verus! {

#[verifier::external_type_specification]
pub struct ExErrorKind(ErrorKind);

/// Whether an accept error concerns only the one connection being accepted
/// (refused, aborted or reset by the peer).
pub open spec fn spec_is_connection_error(kind: ErrorKind) -> bool {
    kind == ErrorKind::ConnectionRefused || kind == ErrorKind::ConnectionAborted || kind
        == ErrorKind::ConnectionReset
}

/// Whether an accept error concerns only the one connection being accepted.
pub fn is_connection_error(kind: ErrorKind) -> (r: bool)
    ensures
        r == spec_is_connection_error(kind),
{
    match kind {
        ErrorKind::ConnectionRefused | ErrorKind::ConnectionAborted | ErrorKind::ConnectionReset => true,
        _ => false,
    }
}


/// How long the accept loop pauses after an error that is not the peer's,
/// in milliseconds, unless configured otherwise.
pub const DEFAULT_SLEEP_ON_ERRORS_MS: u64 = 250;

/// How the accept loop treats an accept error.
#[derive(Debug, Clone, Copy, PartialEq, Eq, Structural)]
pub enum ErrorClass {
    /// The peer's connection failed before it was handed over: retry at once.
    Transient,
    /// Anything else, while a backoff is configured: wait, then retry.
    ResourceExhaustion,
    /// Anything else, with no backoff configured: the loop stops.
    Fatal,
}

/// What the accept loop does after an accept error.
#[derive(Debug, Clone, Copy, PartialEq, Eq)]
pub enum AcceptStep {
    /// Accept again within the same poll.
    Retry,
    /// Arm a timer of this many milliseconds and accept again once it fires.
    Wait(u64),
    /// Hand the error to the caller.
    Fail,
}

/// What a poll of the accept loop does first.
#[derive(Debug, Clone, Copy, PartialEq, Eq, Structural)]
pub enum PollAction {
    /// Poll the armed timer; accept only once it has fired.
    WaitTimer,
    /// Poll the listener.
    Accept,
}

/// A poll waits out an armed timer before it accepts again.
pub open spec fn spec_poll_action(v: IncomingView) -> PollAction {
    if v.pending_error_delay is Some {
        PollAction::WaitTimer
    } else {
        PollAction::Accept
    }
}

/// A listener wrapped in the retrying accept loop: connection-level accept
/// errors are skipped, other errors pause the loop for a configured time,
/// or end it where no pause is configured. Pauses are in milliseconds.
pub struct Incoming<L> {
    sleep_on_errors: Option<u64>,
    pending_error_delay: Option<u64>,
    listener: L,
}

/// The configuration and the timer of an accept loop.
pub struct IncomingView {
    pub sleep_on_errors: Option<u64>,
    pub pending_error_delay: Option<u64>,
}

/// The loop after an accept error of kind `kind`, and what it does next.
pub open spec fn after_error(v: IncomingView, kind: ErrorKind) -> (IncomingView, AcceptStep) {
    if spec_is_connection_error(kind) {
        (v, AcceptStep::Retry)
    } else {
        match v.sleep_on_errors {
            Some(d) => (IncomingView { pending_error_delay: Some(d), ..v }, AcceptStep::Wait(d)),
            None => (v, AcceptStep::Fail),
        }
    }
}

/// The steps the loop takes on accept errors of the kinds `kinds`, in turn,
/// with no accept succeeding between them.
pub open spec fn steps_after_errors(v: IncomingView, kinds: Seq<ErrorKind>) -> Seq<AcceptStep>
    decreases kinds.len(),
{
    if kinds.len() == 0 {
        Seq::empty()
    } else {
        let (next, step) = after_error(v, kinds[0]);
        seq![step] + steps_after_errors(next, kinds.drop_first())
    }
}

/// The loop's state after those errors.
pub open spec fn state_after_errors(v: IncomingView, kinds: Seq<ErrorKind>) -> IncomingView
    decreases kinds.len(),
{
    if kinds.len() == 0 {
        v
    } else {
        state_after_errors(after_error(v, kinds[0]).0, kinds.drop_first())
    }
}

impl<L> Incoming<L> {
    pub closed spec fn view(&self) -> IncomingView {
        IncomingView {
            sleep_on_errors: self.sleep_on_errors,
            pending_error_delay: self.pending_error_delay,
        }
    }

    pub closed spec fn spec_listener(&self) -> L {
        self.listener
    }

    /// Wraps a listener; the loop pauses 250 ms after errors that are not
    /// the peer's, and no timer is armed.
    pub fn new(listener: L) -> (r: Self)
        ensures
            r.view().sleep_on_errors == Some(DEFAULT_SLEEP_ON_ERRORS_MS),
            r.view().pending_error_delay is None,
            r.spec_listener() == listener,
    {
        Incoming {
            listener,
            sleep_on_errors: Some(DEFAULT_SLEEP_ON_ERRORS_MS),
            pending_error_delay: None,
        }
    }

    /// Sets how long to pause, in milliseconds, after an accept error that
    /// is not the peer's; `None` makes such an error end the loop.
    pub fn set_sleep_on_errors(&mut self, val: Option<u64>)
        ensures
            final(self).view() == (IncomingView { sleep_on_errors: val, ..old(self).view() }),
            final(self).spec_listener() == old(self).spec_listener(),
    {
        self.sleep_on_errors = val;
    }

    /// The configured pause.
    pub fn sleep_on_errors(&self) -> (r: Option<u64>)
        ensures
            r == self.view().sleep_on_errors,
    {
        self.sleep_on_errors
    }

    /// The timer the loop waits on before it accepts again, if any.
    pub fn pending_error_delay(&self) -> (r: Option<u64>)
        ensures
            r == self.view().pending_error_delay,
    {
        self.pending_error_delay
    }

    /// The wrapped listener.
    pub fn listener(&self) -> (r: &L)
        ensures
            *r == self.spec_listener(),
    {
        &self.listener
    }

    /// The wrapped listener, to accept from.
    pub fn listener_mut(&mut self) -> (r: &mut L)
        ensures
            *r == old(self).spec_listener(),
            final(self).view() == old(self).view(),
            final(self).spec_listener() == *final(r),
    {
        &mut self.listener
    }

    /// Classifies an accept error.
    pub fn classify(&self, kind: ErrorKind) -> (r: ErrorClass)
        ensures
            spec_is_connection_error(kind) ==> r == ErrorClass::Transient,
            !spec_is_connection_error(kind) && self.view().sleep_on_errors is Some ==> r
                == ErrorClass::ResourceExhaustion,
            !spec_is_connection_error(kind) && self.view().sleep_on_errors is None ==> r
                == ErrorClass::Fatal,
    {
        if is_connection_error(kind) {
            ErrorClass::Transient
        } else if self.sleep_on_errors.is_some() {
            ErrorClass::ResourceExhaustion
        } else {
            ErrorClass::Fatal
        }
    }

    /// Decides on an accept error: retry at once, arm the configured timer,
    /// or give up.
    pub fn on_accept_error(&mut self, kind: ErrorKind) -> (r: AcceptStep)
        ensures
            (final(self).view(), r) == after_error(old(self).view(), kind),
            final(self).spec_listener() == old(self).spec_listener(),
    {
        match self.classify(kind) {
            ErrorClass::Transient => AcceptStep::Retry,
            ErrorClass::ResourceExhaustion => {
                let d = match self.sleep_on_errors {
                    Some(d) => d,
                    None => {
                        return AcceptStep::Fail;
                    },
                };
                self.pending_error_delay = Some(d);
                AcceptStep::Wait(d)
            },
            ErrorClass::Fatal => AcceptStep::Fail,
        }
    }

    /// What the next poll does first: wait for the armed timer, or accept.
    pub fn poll_action(&self) -> (r: PollAction)
        ensures
            r == spec_poll_action(self.view()),
    {
        if self.pending_error_delay.is_some() {
            PollAction::WaitTimer
        } else {
            PollAction::Accept
        }
    }

    /// The armed timer fired: the loop may accept again.
    pub fn on_delay_elapsed(&mut self)
        ensures
            final(self).view() == (IncomingView {
                pending_error_delay: None,
                ..old(self).view()
            }),
            final(self).spec_listener() == old(self).spec_listener(),
    {
        self.pending_error_delay = None;
    }
}

/// A burst of connection-level errors costs no delay: the loop retries at
/// once after each, and arms no timer.
pub proof fn lemma_connection_errors_retry_at_once(v: IncomingView, kinds: Seq<ErrorKind>)
    requires
        forall|i: int| 0 <= i < kinds.len() ==> spec_is_connection_error(#[trigger] kinds[i]),
    ensures
        steps_after_errors(v, kinds).len() == kinds.len(),
        spec_poll_action(state_after_errors(v, kinds)) == spec_poll_action(v),
        forall|i: int|
            0 <= i < kinds.len() ==> #[trigger] steps_after_errors(v, kinds)[i] == AcceptStep::Retry,
        state_after_errors(v, kinds) == v,
    decreases kinds.len(),
{
    if kinds.len() > 0 {
        let rest = kinds.drop_first();
        assert forall|i: int| 0 <= i < rest.len() implies spec_is_connection_error(
            #[trigger] rest[i],
        ) by {
            assert(rest[i] == kinds[i + 1]);
        }
        lemma_connection_errors_retry_at_once(v, rest);
        let steps = steps_after_errors(v, kinds);
        assert forall|i: int| 0 <= i < kinds.len() implies #[trigger] steps[i]
            == AcceptStep::Retry by {
            if i > 0 {
                assert(steps[i] == steps_after_errors(v, rest)[i - 1]);
            }
        }
    }
}

/// One error that is not the peer's, with a backoff configured, costs
/// exactly one pause of the configured length: the loop arms that timer, its
/// next poll waits for it rather than accepting, and once it has fired the
/// loop accepts again with no timer left.
pub proof fn lemma_resource_error_waits_once(v: IncomingView, kind: ErrorKind)
    requires
        !spec_is_connection_error(kind),
        v.sleep_on_errors is Some,
    ensures
        after_error(v, kind).1 == AcceptStep::Wait(v.sleep_on_errors->Some_0),
        after_error(v, kind).0.pending_error_delay == v.sleep_on_errors,
        steps_after_errors(v, seq![kind]) == seq![AcceptStep::Wait(v.sleep_on_errors->Some_0)],
        spec_poll_action(after_error(v, kind).0) == PollAction::WaitTimer,
        spec_poll_action(
            IncomingView { pending_error_delay: None, ..after_error(v, kind).0 },
        ) == PollAction::Accept,
{
    assert(seq![kind].drop_first() =~= Seq::<ErrorKind>::empty());
    assert(steps_after_errors(after_error(v, kind).0, Seq::<ErrorKind>::empty()) =~= Seq::<
        AcceptStep,
    >::empty());
    assert(steps_after_errors(v, seq![kind]) =~= seq![AcceptStep::Wait(v.sleep_on_errors->Some_0)]);
}

} // verus!
