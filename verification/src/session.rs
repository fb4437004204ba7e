//! One connection, from the upgrade of its stream to its end.
//!
//! The session decides and its owner acts: the owner upgrades the stream,
//! takes samples, sends frames and sleeps, and reports each outcome as an
//! event. For each event the session says what is to be done next.

use vstd::prelude::*;
use crate::combo::combo_message;
use crate::poller::{tick_message, tick_state, ChangeDetectingPoller};
use crate::snapshot::KeySnapshot;

verus! {

/// The time between two samples, in milliseconds.
pub const POLL_INTERVAL_MILLIS: u64 = 10;

/// Where a session stands.
#[derive(Clone, Copy, Debug, PartialEq, Eq, Structural)]
pub enum SessionPhase {
    /// The stream is being upgraded to a message channel.
    Upgrading,
    /// The next sample is awaited.
    Polling,
    /// A frame is being sent.
    Sending,
    /// The session has ended.
    Closed,
}

/// Why a session ended.
#[derive(Clone, Copy, Debug, PartialEq, Eq, Structural)]
pub enum CloseCause {
    /// The stream could not be upgraded.
    HandshakeFailed,
    /// The keys could not be sampled.
    SampleFailed,
    /// A frame could not be sent.
    SendFailed,
}

/// What the owner of a session reports to it.
#[derive(Debug)]
pub enum SessionEvent {
    /// The stream was upgraded.
    Upgraded,
    /// The stream could not be upgraded.
    UpgradeFailed,
    /// The keys that are down were sampled.
    Sampled(KeySnapshot),
    /// The keys could not be sampled.
    SampleFailed,
    /// The frame was sent.
    Sent,
    /// The frame could not be sent.
    SendFailed,
}

/// What the owner of a session is to do next.
#[derive(Debug, PartialEq, Eq)]
pub enum SessionAction {
    /// Take a sample now.
    Sample,
    /// Send this text as one frame.
    Send(String),
    /// Sleep for this many milliseconds, then take a sample.
    Sleep(u64),
    /// End the session.
    Close(CloseCause),
}

/// An action with the text of its frame as a sequence of characters.
pub enum ActionView {
    Sample,
    Send(Seq<char>),
    Sleep(u64),
    Close(CloseCause),
}

impl View for SessionAction {
    type V = ActionView;

    open spec fn view(&self) -> ActionView {
        match self {
            SessionAction::Sample => ActionView::Sample,
            SessionAction::Send(text) => ActionView::Send(text@),
            SessionAction::Sleep(millis) => ActionView::Sleep(*millis),
            SessionAction::Close(cause) => ActionView::Close(*cause),
        }
    }
}

/// An event came that the session's phase does not await.
#[derive(Clone, Copy, Debug, PartialEq, Eq, Structural)]
pub struct UnexpectedEvent;

/// Whether a session in `phase` awaits `event`.
pub open spec fn awaits(phase: SessionPhase, event: SessionEvent) -> bool {
    match phase {
        SessionPhase::Upgrading => event is Upgraded || event is UpgradeFailed,
        SessionPhase::Polling => event is Sampled || event is SampleFailed,
        SessionPhase::Sending => event is Sent || event is SendFailed,
        SessionPhase::Closed => false,
    }
}

/// What is to be done when a session that remembers `remembered` gets an
/// `event` that it awaits.
pub open spec fn action_for(remembered: KeySnapshot, event: SessionEvent) -> ActionView {
    match event {
        SessionEvent::Upgraded => ActionView::Sample,
        SessionEvent::UpgradeFailed => ActionView::Close(CloseCause::HandshakeFailed),
        SessionEvent::Sampled(current) => match tick_message(remembered, current) {
            Some(text) => ActionView::Send(text),
            None => ActionView::Sleep(POLL_INTERVAL_MILLIS),
        },
        SessionEvent::SampleFailed => ActionView::Close(CloseCause::SampleFailed),
        SessionEvent::Sent => ActionView::Sleep(POLL_INTERVAL_MILLIS),
        SessionEvent::SendFailed => ActionView::Close(CloseCause::SendFailed),
    }
}

/// The phase in which `action` leaves the session.
pub open spec fn phase_after(action: ActionView) -> SessionPhase {
    match action {
        ActionView::Sample => SessionPhase::Polling,
        ActionView::Send(_) => SessionPhase::Sending,
        ActionView::Sleep(_) => SessionPhase::Polling,
        ActionView::Close(_) => SessionPhase::Closed,
    }
}

/// What a session that remembered `remembered` remembers after an `event`
/// that it awaited.
pub open spec fn remembered_after(remembered: KeySnapshot, event: SessionEvent) -> KeySnapshot {
    match event {
        SessionEvent::Sampled(current) => tick_state(remembered, current),
        _ => remembered,
    }
}

/// A frame is sent for a sample exactly when the sample holds other keys
/// than the remembered snapshot, and at least one. The frame is then the
/// message of the sample.
pub proof fn lemma_frame_iff_change(remembered: KeySnapshot, current: KeySnapshot)
    ensures
        action_for(remembered, SessionEvent::Sampled(current)) is Send <==> (current@
            != remembered@ && !current@.is_empty()),
        action_for(remembered, SessionEvent::Sampled(current)) is Send ==> action_for(
            remembered,
            SessionEvent::Sampled(current),
        ) == ActionView::Send(combo_message(current.names())),
{
}

/// A failure ends the session for good: whatever fails, the session is
/// closed, and a closed session awaits nothing.
pub proof fn lemma_failure_closes_for_good(
    remembered: KeySnapshot,
    failure: SessionEvent,
    later: SessionEvent,
)
    requires
        failure is UpgradeFailed || failure is SampleFailed || failure is SendFailed,
    ensures
        action_for(remembered, failure) is Close,
        phase_after(action_for(remembered, failure)) == SessionPhase::Closed,
        !awaits(phase_after(action_for(remembered, failure)), later),
{
}

/// One connection's state: its phase and the last sample of its own poller.
#[derive(Debug)]
pub struct Session {
    phase: SessionPhase,
    poller: ChangeDetectingPoller,
}

impl Session {
    /// Where the session stands.
    pub closed spec fn phase(&self) -> SessionPhase {
        self.phase
    }

    /// The snapshot that the session's poller remembers.
    pub closed spec fn remembered(&self) -> KeySnapshot {
        self.poller.previous()
    }

    /// The session for a stream that was just accepted: its upgrade is
    /// awaited, and no key is remembered as down.
    pub fn new() -> (session: Session)
        ensures
            session.phase() == SessionPhase::Upgrading,
            session.remembered()@ == Set::<Seq<char>>::empty(),
    {
        Session { phase: SessionPhase::Upgrading, poller: ChangeDetectingPoller::new() }
    }

    /// Where the session stands.
    pub fn current_phase(&self) -> (phase: SessionPhase)
        ensures
            phase == self.phase(),
    {
        self.phase
    }

    /// Whether the session has ended.
    pub fn is_closed(&self) -> (closed: bool)
        ensures
            closed == (self.phase() == SessionPhase::Closed),
    {
        self.phase == SessionPhase::Closed
    }

    /// Takes `event` and says what is to be done next. An event that the
    /// phase does not await changes nothing and is refused.
    pub fn step(&mut self, event: SessionEvent) -> (next: Result<SessionAction, UnexpectedEvent>)
        ensures
            awaits(old(self).phase(), event) ==> {
                &&& next is Ok
                &&& next->Ok_0@ == action_for(old(self).remembered(), event)
                &&& final(self).phase() == phase_after(next->Ok_0@)
                &&& final(self).remembered() == remembered_after(old(self).remembered(), event)
            },
            !awaits(old(self).phase(), event) ==> {
                &&& next is Err
                &&& final(self).phase() == old(self).phase()
                &&& final(self).remembered() == old(self).remembered()
            },
    {
        match (self.phase, event) {
            (SessionPhase::Upgrading, SessionEvent::Upgraded) => {
                self.phase = SessionPhase::Polling;
                Ok(SessionAction::Sample)
            },
            (SessionPhase::Upgrading, SessionEvent::UpgradeFailed) => {
                self.phase = SessionPhase::Closed;
                Ok(SessionAction::Close(CloseCause::HandshakeFailed))
            },
            (SessionPhase::Polling, SessionEvent::Sampled(current)) => {
                match self.poller.tick(current) {
                    Some(text) => {
                        self.phase = SessionPhase::Sending;
                        Ok(SessionAction::Send(text))
                    },
                    None => Ok(SessionAction::Sleep(POLL_INTERVAL_MILLIS)),
                }
            },
            (SessionPhase::Polling, SessionEvent::SampleFailed) => {
                self.phase = SessionPhase::Closed;
                Ok(SessionAction::Close(CloseCause::SampleFailed))
            },
            (SessionPhase::Sending, SessionEvent::Sent) => {
                self.phase = SessionPhase::Polling;
                Ok(SessionAction::Sleep(POLL_INTERVAL_MILLIS))
            },
            (SessionPhase::Sending, SessionEvent::SendFailed) => {
                self.phase = SessionPhase::Closed;
                Ok(SessionAction::Close(CloseCause::SendFailed))
            },
            _ => Err(UnexpectedEvent),
        }
    }
}

} // verus!
