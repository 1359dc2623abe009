//! The heartbeat and ingress monitor of one connection.
//!
//! The monitor probes its peer at a fixed interval and remembers when the
//! peer last acknowledged a probe. Before each probe it checks that
//! timestamp; a peer that has been silent for longer than the timeout gets
//! its connection closed. Inbound frames are answered as the protocol asks.
//! However a connection ends, the registry is told exactly once.
//!
//! Time is a reading of a monotonic clock in seconds, taken by the caller.

use crate::event::WsMessage;
use vstd::prelude::*;

verus! {

/// Seconds between two liveness probes.
pub const PROBE_INTERVAL_SECS: u64 = 10;

/// Seconds of silence after which a connection counts as lost.
pub const CLIENT_TIMEOUT_SECS: u64 = 30;

/// Where a connection stands.
#[derive(Clone, Copy, Debug, PartialEq, Eq, Structural)]
pub enum MonitorState {
    /// The connection is in use.
    Connected,
    /// The peer was silent for too long; the connection is being closed.
    TimedOut,
    /// The connection is gone and the registry was told.
    Closed,
}

/// What a monitor observes.
#[derive(Debug, PartialEq, Eq)]
pub enum MonitorEvent {
    /// The probe timer fired at `now`.
    Tick {
        /// The clock reading.
        now: u64,
    },
    /// The peer sent a protocol ping with this payload.
    Ping(Vec<u8>),
    /// The peer acknowledged a probe at `now`.
    Pong {
        /// The clock reading.
        now: u64,
    },
    /// The peer sent a close frame.
    CloseFrame,
    /// The peer sent a malformed wire frame.
    ProtocolError,
    /// The peer sent an application message: the parsed message, or `None`
    /// where it could not be parsed.
    Message(Option<WsMessage>),
    /// The connection was found closed: the inbound stream ended, or a write
    /// was refused because the sink is closed.
    ConnectionGone,
}

/// What a monitor has to do next.
#[derive(Debug, PartialEq, Eq)]
pub enum MonitorAction {
    /// Nothing.
    Idle,
    /// Send a liveness probe.
    SendProbe,
    /// Answer a protocol ping with the same payload.
    SendPong(Vec<u8>),
    /// Answer in-band that the last message was not accepted.
    SendInvalidMessage,
    /// Close the connection.
    CloseConnection,
    /// Tell the registry that the connection was lost, then stop.
    NotifyDisconnect,
}

/// The monitor of one connection.
#[derive(Clone, Copy, Debug)]
pub struct Monitor {
    /// Where the connection stands.
    pub state: MonitorState,
    /// When the peer last acknowledged a probe.
    pub last_ack: u64,
}

/// Whether a peer whose last acknowledgment came at `last_ack` has been
/// silent for longer than the timeout at `now`.
pub open spec fn timed_out(last_ack: u64, now: u64) -> bool {
    now - last_ack > CLIENT_TIMEOUT_SECS
}

/// Whether an inbound application message is turned down: it could not be
/// parsed, or it carries a tag that only the server may produce.
pub open spec fn rejected(message: Option<WsMessage>) -> bool {
    match message {
        None => true,
        Some(m) => m.is_server_only(),
    }
}

impl Monitor {
    /// The monitor after `event`.
    pub open spec fn next(self, event: MonitorEvent) -> Monitor {
        match self.state {
            MonitorState::Closed => self,
            MonitorState::TimedOut => Monitor { state: MonitorState::Closed, ..self },
            MonitorState::Connected => match event {
                MonitorEvent::Tick { now } => if timed_out(self.last_ack, now) {
                    Monitor { state: MonitorState::TimedOut, ..self }
                } else {
                    self
                },
                MonitorEvent::Pong { now } => Monitor { last_ack: now, ..self },
                MonitorEvent::Ping(_) => self,
                MonitorEvent::Message(_) => self,
                MonitorEvent::CloseFrame => Monitor { state: MonitorState::Closed, ..self },
                MonitorEvent::ProtocolError => Monitor { state: MonitorState::Closed, ..self },
                MonitorEvent::ConnectionGone => Monitor { state: MonitorState::Closed, ..self },
            },
        }
    }

    /// What the monitor has to do for `event`.
    pub open spec fn action(self, event: MonitorEvent) -> MonitorAction {
        match self.state {
            MonitorState::Closed => MonitorAction::Idle,
            MonitorState::TimedOut => MonitorAction::NotifyDisconnect,
            MonitorState::Connected => match event {
                MonitorEvent::Tick { now } => if timed_out(self.last_ack, now) {
                    MonitorAction::CloseConnection
                } else {
                    MonitorAction::SendProbe
                },
                MonitorEvent::Pong { .. } => MonitorAction::Idle,
                MonitorEvent::Ping(payload) => MonitorAction::SendPong(payload),
                MonitorEvent::Message(message) => if rejected(message) {
                    MonitorAction::SendInvalidMessage
                } else {
                    MonitorAction::Idle
                },
                MonitorEvent::CloseFrame => MonitorAction::NotifyDisconnect,
                MonitorEvent::ProtocolError => MonitorAction::NotifyDisconnect,
                MonitorEvent::ConnectionGone => MonitorAction::NotifyDisconnect,
            },
        }
    }

    /// Creates the monitor of a connection that was opened at `now`.
    pub fn new(now: u64) -> (monitor: Monitor)
        ensures
            monitor == (Monitor { state: MonitorState::Connected, last_ack: now }),
    {
        Monitor { state: MonitorState::Connected, last_ack: now }
    }

    /// Tells whether the peer has been silent for longer than the timeout at
    /// `now`.
    pub fn is_timed_out(&self, now: u64) -> (late: bool)
        ensures
            late == timed_out(self.last_ack, now),
    {
        now > self.last_ack && now - self.last_ack > CLIENT_TIMEOUT_SECS
    }

    /// Takes one event, moves to the next state and returns what has to be
    /// done.
    ///
    /// While connected: a tick sends a probe, or closes the connection if the
    /// peer is late; an acknowledgment refreshes the timestamp; a ping is
    /// answered with its payload; an application message that is not accepted
    /// is answered in-band and the connection stays open; a close frame, a
    /// protocol error or a connection found closed end the connection.
    /// After a timeout the next event ends the connection. The registry is
    /// told on the step that ends the connection and never again.
    pub fn step(&mut self, event: MonitorEvent) -> (action: MonitorAction)
        ensures
            *final(self) == old(self).next(event),
            action == old(self).action(event),
    {
        match self.state {
            MonitorState::Closed => MonitorAction::Idle,
            MonitorState::TimedOut => {
                self.state = MonitorState::Closed;
                MonitorAction::NotifyDisconnect
            },
            MonitorState::Connected => match event {
                MonitorEvent::Tick { now } => {
                    if self.is_timed_out(now) {
                        self.state = MonitorState::TimedOut;
                        MonitorAction::CloseConnection
                    } else {
                        MonitorAction::SendProbe
                    }
                },
                MonitorEvent::Pong { now } => {
                    self.last_ack = now;
                    MonitorAction::Idle
                },
                MonitorEvent::Ping(payload) => MonitorAction::SendPong(payload),
                MonitorEvent::Message(message) => {
                    if is_rejected(&message) {
                        MonitorAction::SendInvalidMessage
                    } else {
                        MonitorAction::Idle
                    }
                },
                MonitorEvent::CloseFrame => {
                    self.state = MonitorState::Closed;
                    MonitorAction::NotifyDisconnect
                },
                MonitorEvent::ProtocolError => {
                    self.state = MonitorState::Closed;
                    MonitorAction::NotifyDisconnect
                },
                MonitorEvent::ConnectionGone => {
                    self.state = MonitorState::Closed;
                    MonitorAction::NotifyDisconnect
                },
            },
        }
    }
}

/// Tells whether an inbound application message is turned down.
pub fn is_rejected(message: &Option<WsMessage>) -> (no: bool)
    ensures
        no == rejected(*message),
{
    match message {
        None => true,
        Some(m) => m.server_only(),
    }
}

/// The monitor after the events `events`, taken in order.
pub open spec fn after(start: Monitor, events: Seq<MonitorEvent>) -> Monitor
    decreases events.len(),
{
    if events.len() == 0 {
        start
    } else {
        after(start, events.drop_last()).next(events.last())
    }
}

/// How often the registry is told of a disconnect while `events` are taken
/// in order.
pub open spec fn notifications(start: Monitor, events: Seq<MonitorEvent>) -> nat
    decreases events.len(),
{
    if events.len() == 0 {
        0
    } else {
        let earlier = notifications(start, events.drop_last());
        if after(start, events.drop_last()).action(events.last()) == MonitorAction::NotifyDisconnect {
            earlier + 1
        } else {
            earlier
        }
    }
}

/// Over any sequence of events, a monitor that starts with an open
/// connection tells the registry exactly once if the connection has ended,
/// and not at all while it has not.
pub proof fn law_one_notification(start: Monitor, events: Seq<MonitorEvent>)
    requires
        start.state != MonitorState::Closed,
    ensures
        notifications(start, events) == if after(start, events).state == MonitorState::Closed {
            1nat
        } else {
            0nat
        },
    decreases events.len(),
{
    if events.len() > 0 {
        law_one_notification(start, events.drop_last());
    }
}

/// A connected peer that is late at a tick has its connection closed, and
/// the event after that ends the connection with one notification. A peer
/// that is not late gets a probe and stays connected.
pub proof fn law_timeout_closes(monitor: Monitor, now: u64, following: MonitorEvent)
    requires
        monitor.state == MonitorState::Connected,
    ensures
        timed_out(monitor.last_ack, now) ==> {
            let late = monitor.next(MonitorEvent::Tick { now });
            &&& monitor.action(MonitorEvent::Tick { now }) == MonitorAction::CloseConnection
            &&& late.state == MonitorState::TimedOut
            &&& late.action(following) == MonitorAction::NotifyDisconnect
            &&& late.next(following).state == MonitorState::Closed
        },
        !timed_out(monitor.last_ack, now) ==> {
            &&& monitor.action(MonitorEvent::Tick { now }) == MonitorAction::SendProbe
            &&& monitor.next(MonitorEvent::Tick { now }) == monitor
        },
{
}

} // verus!
