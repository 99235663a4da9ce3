//! The echo handler of one connection, as a state machine.
//!
//! The handler is strictly sequential: it asks for one message, asks for that
//! message to be sent back, and only then asks for the next one. It never
//! looks inside a message.

use vstd::prelude::*;
use crate::message::{Frame, Message};

verus! {

/// Where the handler of one connection stands.
#[derive(Debug, Clone, Copy, PartialEq, Eq, Structural)]
pub enum Phase {
    /// Open, waiting for the next message from the peer.
    Receiving,
    /// Open, waiting for the transport to finish sending an echo.
    Echoing,
    /// Terminated. The connection has been given up; nothing more is sent or
    /// received on it.
    Closed,
}

impl Phase {
    /// The connection is open: the handler has not terminated.
    pub open spec fn is_open(self) -> bool {
        self != Phase::Closed
    }
}

/// What the transport reports back to the handler.
#[derive(Debug, PartialEq, Eq)]
pub enum Event {
    /// A receive completed with a message.
    Message(Message),
    /// A receive completed with a close frame from the peer.
    CloseFrame,
    /// A receive found the stream ended: the peer is gone.
    EndOfStream,
    /// A receive failed in the transport.
    ReceiveFailed,
    /// The send that the handler asked for completed.
    Sent,
    /// The send that the handler asked for failed.
    SendFailed,
}

/// The mathematical content of an [`Event`].
pub enum EventView {
    Message(Frame),
    CloseFrame,
    EndOfStream,
    ReceiveFailed,
    Sent,
    SendFailed,
}

impl View for Event {
    type V = EventView;

    open spec fn view(&self) -> EventView {
        match self {
            Event::Message(message) => EventView::Message(message@),
            Event::CloseFrame => EventView::CloseFrame,
            Event::EndOfStream => EventView::EndOfStream,
            Event::ReceiveFailed => EventView::ReceiveFailed,
            Event::Sent => EventView::Sent,
            Event::SendFailed => EventView::SendFailed,
        }
    }
}

impl Clone for Event {
    /// The same event, carrying an equal message if it carries one.
    fn clone(&self) -> (copy: Event)
        ensures
            copy@ == self@,
    {
        match self {
            Event::Message(message) => Event::Message(message.clone()),
            Event::CloseFrame => Event::CloseFrame,
            Event::EndOfStream => Event::EndOfStream,
            Event::ReceiveFailed => Event::ReceiveFailed,
            Event::Sent => Event::Sent,
            Event::SendFailed => Event::SendFailed,
        }
    }
}

/// What the handler asks its driver to do next.
#[derive(Debug, PartialEq, Eq)]
pub enum Action {
    /// Wait for the next message and report the outcome.
    Receive,
    /// Send this message to the peer and report the outcome.
    Send(Message),
    /// Release the connection; the handler is done.
    Release,
}

/// The mathematical content of an [`Action`].
pub enum ActionView {
    Receive,
    Send(Frame),
    Release,
}

impl View for Action {
    type V = ActionView;

    open spec fn view(&self) -> ActionView {
        match self {
            Action::Receive => ActionView::Receive,
            Action::Send(message) => ActionView::Send(message@),
            Action::Release => ActionView::Release,
        }
    }
}

impl Clone for Action {
    /// The same action, carrying an equal message if it carries one.
    fn clone(&self) -> (copy: Action)
        ensures
            copy@ == self@,
    {
        match self {
            Action::Receive => Action::Receive,
            Action::Send(message) => Action::Send(message.clone()),
            Action::Release => Action::Release,
        }
    }
}

/// The transition function of the handler.
///
/// A message that arrives while the handler waits for one is sent back as it
/// is. A completed send returns the handler to waiting. Everything else ends
/// the connection: the peer closing, a failure of the transport in either
/// direction, and any event the handler was not waiting for.
pub open spec fn next(phase: Phase, event: EventView) -> (Phase, ActionView) {
    match (phase, event) {
        (Phase::Receiving, EventView::Message(frame)) => (Phase::Echoing, ActionView::Send(frame)),
        (Phase::Echoing, EventView::Sent) => (Phase::Receiving, ActionView::Receive),
        _ => (Phase::Closed, ActionView::Release),
    }
}

/// The state of a freshly upgraded connection and the first thing to do on it.
pub fn start() -> (r: (Phase, Action))
    ensures
        r.0 == Phase::Receiving,
        r.1@ == ActionView::Receive,
{
    (Phase::Receiving, Action::Receive)
}

/// Advances the handler by one event.
///
/// Returns the new phase and the action the driver must perform next. The
/// message of a `Send` is the received message itself, moved, not copied.
pub fn step(phase: Phase, event: Event) -> (r: (Phase, Action))
    ensures
        r.0 == next(phase, event@).0,
        r.1@ == next(phase, event@).1,
{
    match (phase, event) {
        (Phase::Receiving, Event::Message(message)) => (Phase::Echoing, Action::Send(message)),
        (Phase::Echoing, Event::Sent) => (Phase::Receiving, Action::Receive),
        _ => (Phase::Closed, Action::Release),
    }
}

} // verus!
