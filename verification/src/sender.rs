//! The outbound sender of one connection.
//!
//! A sender drains its private queue in order and writes each event to the
//! connection's sink. It ends in exactly two ways: the sentinel arrives, or a
//! write fails. Either way it tries to close the sink and stops; telling the
//! registry is left to the connection's monitor.

use crate::event::WsMessage;
use vstd::prelude::*;

verus! {

/// How many events the queue between the registry and one sender holds. An
/// event offered to a full queue is dropped.
pub const SENDER_QUEUE_CAPACITY: usize = 16;

/// The life of a sender.
#[derive(Clone, Copy, Debug, PartialEq, Eq, Structural)]
pub enum SenderState {
    /// The sender takes events from its queue.
    Running,
    /// The sender has stopped for good.
    Stopped,
}

/// What happened to a sender.
#[derive(Debug, PartialEq, Eq)]
pub enum SenderEvent {
    /// The next event was taken from the queue.
    Queued(WsMessage),
    /// The last write to the sink failed.
    WriteFailed,
}

/// What a sender has to do next.
#[derive(Debug, PartialEq, Eq)]
pub enum SenderAction {
    /// Put the event on the wire.
    Transmit(WsMessage),
    /// Try to close the sink, then stop.
    CloseSink,
    /// Nothing: the sender has stopped already.
    Idle,
}

/// The state of a sender after `event`.
pub open spec fn next_state(state: SenderState, event: SenderEvent) -> SenderState {
    match (state, event) {
        (SenderState::Running, SenderEvent::Queued(message)) => if message.is_sentinel() {
            SenderState::Stopped
        } else {
            SenderState::Running
        },
        (SenderState::Running, SenderEvent::WriteFailed) => SenderState::Stopped,
        (SenderState::Stopped, _) => SenderState::Stopped,
    }
}

/// What a sender in `state` has to do for `event`.
pub open spec fn next_action(state: SenderState, event: SenderEvent) -> SenderAction {
    match (state, event) {
        (SenderState::Running, SenderEvent::Queued(message)) => if message.is_sentinel() {
            SenderAction::CloseSink
        } else {
            SenderAction::Transmit(message)
        },
        (SenderState::Running, SenderEvent::WriteFailed) => SenderAction::CloseSink,
        (SenderState::Stopped, _) => SenderAction::Idle,
    }
}

/// Decides what a sender in `state` does for `event`, and returns its next
/// state with the action. A running sender transmits every event but the
/// sentinel unchanged; the sentinel and a failed write make it close the
/// sink and stop.
pub fn sender_step(state: SenderState, event: SenderEvent) -> (result: (SenderState, SenderAction))
    ensures
        result.0 == next_state(state, event),
        result.1 == next_action(state, event),
{
    match state {
        SenderState::Stopped => (SenderState::Stopped, SenderAction::Idle),
        SenderState::Running => match event {
            SenderEvent::WriteFailed => (SenderState::Stopped, SenderAction::CloseSink),
            SenderEvent::Queued(message) => {
                if message.is_terminate() {
                    (SenderState::Stopped, SenderAction::CloseSink)
                } else {
                    (SenderState::Running, SenderAction::Transmit(message))
                }
            },
        },
    }
}

/// A sender closes its sink exactly when it stops, and once stopped it stays
/// stopped and does nothing more.
pub proof fn law_sender_stops_once(state: SenderState, event: SenderEvent)
    ensures
        next_state(SenderState::Stopped, event) == SenderState::Stopped,
        next_action(SenderState::Stopped, event) == SenderAction::Idle,
        next_action(state, event) == SenderAction::CloseSink <==> (state == SenderState::Running
            && next_state(state, event) == SenderState::Stopped),
{
}

} // verus!
