//! The listening side: one endpoint, and one session for every stream that
//! is accepted on it.
//!
//! The acceptor decides and its owner acts: the owner binds, accepts and
//! starts the sessions, and reports each outcome as an event.

use vstd::prelude::*;

verus! {

/// The local endpoint on which connections are accepted.
pub const LISTEN_ADDRESS: &'static str = "127.0.0.1:7878";

/// Where the acceptor stands.
#[derive(Clone, Copy, Debug, PartialEq, Eq, Structural)]
pub enum AcceptorPhase {
    /// The endpoint is being bound.
    Binding,
    /// The next stream is awaited.
    Accepting,
    /// The endpoint could not be bound.
    Failed,
}

/// What the owner of the acceptor reports to it.
#[derive(Clone, Copy, Debug, PartialEq, Eq, Structural)]
pub enum AcceptorEvent {
    /// The endpoint was bound.
    Bound,
    /// The endpoint could not be bound.
    BindFailed,
    /// A stream was accepted.
    Accepted,
    /// An attempt to accept a stream failed.
    AcceptFailed,
}

/// What the owner of the acceptor is to do next.
#[derive(Clone, Copy, Debug, PartialEq, Eq, Structural)]
pub enum AcceptorAction {
    /// Wait for the next stream.
    Accept,
    /// Start a session of its own for the accepted stream, and without
    /// waiting for it, wait for the next stream.
    StartSession,
    /// Give the failed attempt up, and wait for the next stream.
    Skip,
    /// Give up: the process cannot go on.
    Abort,
}

/// An event came that the acceptor's phase does not await.
#[derive(Clone, Copy, Debug, PartialEq, Eq, Structural)]
pub struct UnexpectedOutcome;

/// Whether an acceptor in `phase` awaits `event`.
pub open spec fn awaits(phase: AcceptorPhase, event: AcceptorEvent) -> bool {
    match phase {
        AcceptorPhase::Binding => event is Bound || event is BindFailed,
        AcceptorPhase::Accepting => event is Accepted || event is AcceptFailed,
        AcceptorPhase::Failed => false,
    }
}

/// What is to be done after `event`.
pub open spec fn action_for(event: AcceptorEvent) -> AcceptorAction {
    match event {
        AcceptorEvent::Bound => AcceptorAction::Accept,
        AcceptorEvent::BindFailed => AcceptorAction::Abort,
        AcceptorEvent::Accepted => AcceptorAction::StartSession,
        AcceptorEvent::AcceptFailed => AcceptorAction::Skip,
    }
}

/// The phase of an acceptor that was in `phase` when `event` came.
pub open spec fn phase_after(phase: AcceptorPhase, event: AcceptorEvent) -> AcceptorPhase {
    if !awaits(phase, event) {
        phase
    } else if event is BindFailed {
        AcceptorPhase::Failed
    } else {
        AcceptorPhase::Accepting
    }
}

/// The phase of an acceptor that was in `phase` when `events` came, one
/// after the other.
pub open spec fn phase_after_all(phase: AcceptorPhase, events: Seq<AcceptorEvent>) -> AcceptorPhase
    decreases events.len(),
{
    if events.len() == 0 {
        phase
    } else {
        phase_after(phase_after_all(phase, events.drop_last()), events.last())
    }
}

/// The sessions that are started while `events` come to an acceptor that was
/// in `phase`: one for each accepted stream.
pub open spec fn sessions_started(phase: AcceptorPhase, events: Seq<AcceptorEvent>) -> nat
    decreases events.len(),
{
    if events.len() == 0 {
        0
    } else {
        let before = phase_after_all(phase, events.drop_last());
        let started = sessions_started(phase, events.drop_last());
        if awaits(before, events.last()) && events.last() is Accepted {
            started + 1
        } else {
            started
        }
    }
}

/// An acceptor that accepts goes on accepting whatever comes: neither an
/// accepted stream nor a failed attempt ends it, and each accepted stream
/// gets a session.
pub proof fn lemma_acceptor_keeps_accepting(events: Seq<AcceptorEvent>)
    ensures
        phase_after_all(AcceptorPhase::Accepting, events) == AcceptorPhase::Accepting,
        sessions_started(AcceptorPhase::Accepting, events) == events.filter(
            |event: AcceptorEvent| event is Accepted,
        ).len(),
    decreases events.len(),
{
    let accepted = |event: AcceptorEvent| event is Accepted;
    if events.len() == 0 {
        assert(events.filter(accepted) =~= Seq::<AcceptorEvent>::empty());
    } else {
        lemma_acceptor_keeps_accepting(events.drop_last());
        reveal(Seq::filter);
    }
}

/// The listening side's state.
#[derive(Debug)]
pub struct Acceptor {
    phase: AcceptorPhase,
}

impl Acceptor {
    /// Where the acceptor stands.
    pub closed spec fn phase(&self) -> AcceptorPhase {
        self.phase
    }

    /// An acceptor whose endpoint is yet to be bound.
    pub fn new() -> (acceptor: Acceptor)
        ensures
            acceptor.phase() == AcceptorPhase::Binding,
    {
        Acceptor { phase: AcceptorPhase::Binding }
    }

    /// Where the acceptor stands.
    pub fn current_phase(&self) -> (phase: AcceptorPhase)
        ensures
            phase == self.phase(),
    {
        self.phase
    }

    /// Takes `event` and says what is to be done next. An event that the
    /// phase does not await changes nothing and is refused.
    pub fn step(&mut self, event: AcceptorEvent) -> (next: Result<AcceptorAction, UnexpectedOutcome>)
        ensures
            final(self).phase() == phase_after(old(self).phase(), event),
            awaits(old(self).phase(), event) ==> next == Ok::<AcceptorAction, UnexpectedOutcome>(
                action_for(event),
            ),
            !awaits(old(self).phase(), event) ==> next is Err,
    {
        match (self.phase, event) {
            (AcceptorPhase::Binding, AcceptorEvent::Bound) => {
                self.phase = AcceptorPhase::Accepting;
                Ok(AcceptorAction::Accept)
            },
            (AcceptorPhase::Binding, AcceptorEvent::BindFailed) => {
                self.phase = AcceptorPhase::Failed;
                Ok(AcceptorAction::Abort)
            },
            (AcceptorPhase::Accepting, AcceptorEvent::Accepted) => Ok(AcceptorAction::StartSession),
            (AcceptorPhase::Accepting, AcceptorEvent::AcceptFailed) => Ok(AcceptorAction::Skip),
            _ => Err(UnexpectedOutcome),
        }
    }
}

} // verus!
