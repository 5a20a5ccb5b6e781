//! One viewer connection's state machine.
//!
//! The host runs one task per connected viewer socket; this module is that
//! task's brain. Every step is a function of this one connection, the event
//! that woke it, and a read-only look at the shared pair — so no step can
//! touch the store, the signal, or any other connection, and any failure
//! ends this one connection only. There are no retries anywhere here.

use vstd::prelude::*;

use crate::signal::{spec_poll, ChangePoll, ChangeSignal, Hub, Subscription};
use crate::wire::{section_segments_to_string, spec_serialize};

verus! {

/// Where one connection stands.
#[derive(Clone, Copy, PartialEq, Eq, Debug)]
pub enum ViewerState {
    /// The socket is coming up; nothing has been sent yet.
    Connecting,
    /// Hydrated and waiting for changes or a peer close.
    Streaming,
    /// Terminal: the subscription and the socket are to be released.
    Closed,
}

/// What can wake one connection.
#[derive(Clone, Copy, PartialEq, Eq, Debug)]
pub enum ViewerEvent {
    /// The socket is up; time to hydrate.
    Established,
    /// The wake primitive fired: poll the subscription.
    Wake,
    /// The last requested send went through.
    SendSucceeded,
    /// The last requested send failed.
    SendFailed,
    /// The peer sent a close frame.
    PeerClosed,
}

/// What the connection asks its socket to do in reply.
#[derive(Clone, PartialEq, Eq, Debug)]
pub enum ViewerAction {
    /// Push this text frame to the peer.
    SendText(String),
    /// Close the socket without sending anything further.
    CloseSocket,
    /// Nothing; keep waiting.
    Idle,
}

/// The ghost shape of an action, over character sequences.
pub enum Effect {
    /// A text frame with exactly these characters.
    Send(Seq<char>),
    /// A close of the socket.
    Close,
    /// Nothing.
    Silent,
}

/// An executable action carries out a ghost effect when it is the same
/// request with the same characters.
pub open spec fn action_matches(a: ViewerAction, e: Effect) -> bool {
    match e {
        Effect::Send(s) => a matches ViewerAction::SendText(m) && m@ == s,
        Effect::Close => a is CloseSocket,
        Effect::Silent => a is Idle,
    }
}

/// One viewer connection: its state and its own subscription into the
/// change signal.
#[derive(Clone, Copy, PartialEq, Eq, Debug)]
pub struct ViewerConnection {
    /// Where the connection stands.
    pub state: ViewerState,
    /// This connection's independent watcher.
    pub subscription: Subscription,
}

/// The whole transition table. On establishment the connection hydrates:
/// it sends the serialization of the value the store holds right now, and
/// only then enters the wait loop. While streaming, a wake polls the
/// subscription: a change means re-read and push the current value — not
/// any past one — a closed producer means close the socket and end, and a
/// pending poll means keep waiting. A send failure or a peer close ends
/// the connection without further sends. `Closed` is terminal.
pub open spec fn spec_step(c: ViewerConnection, e: ViewerEvent, h: Hub) -> (
    ViewerConnection,
    Effect,
) {
    match c.state {
        ViewerState::Connecting => match e {
            ViewerEvent::Established => (
                ViewerConnection { state: ViewerState::Streaming, ..c },
                Effect::Send(spec_serialize(h.cell.value)),
            ),
            ViewerEvent::PeerClosed => (
                ViewerConnection { state: ViewerState::Closed, ..c },
                Effect::Silent,
            ),
            _ => (c, Effect::Silent),
        },
        ViewerState::Streaming => match e {
            ViewerEvent::Wake => {
                let polled = spec_poll(c.subscription, h.signal);
                match polled.1 {
                    ChangePoll::Changed => (
                        ViewerConnection { subscription: polled.0, ..c },
                        Effect::Send(spec_serialize(h.cell.value)),
                    ),
                    ChangePoll::Pending => (c, Effect::Silent),
                    ChangePoll::Closed => (
                        ViewerConnection { state: ViewerState::Closed, ..c },
                        Effect::Close,
                    ),
                }
            },
            ViewerEvent::SendFailed => (
                ViewerConnection { state: ViewerState::Closed, ..c },
                Effect::Silent,
            ),
            ViewerEvent::PeerClosed => (
                ViewerConnection { state: ViewerState::Closed, ..c },
                Effect::Silent,
            ),
            _ => (c, Effect::Silent),
        },
        ViewerState::Closed => (c, Effect::Silent),
    }
}

impl ViewerConnection {
    /// The connection as it is when a socket upgrade begins: not yet
    /// hydrated, already holding its own watcher, caught up as of now —
    /// hydration itself covers everything up to this moment.
    pub fn accept(signal: &ChangeSignal) -> (c: ViewerConnection)
        ensures
            c.state is Connecting,
            c.subscription.seen == signal.generation,
    {
        ViewerConnection { state: ViewerState::Connecting, subscription: signal.subscribe() }
    }

    /// Feeds the connection one event and a read-only look at the shared
    /// pair; steps exactly as the transition table says and hands back what
    /// the socket should do.
    pub fn on_event(&mut self, event: ViewerEvent, hub: &Hub) -> (a: ViewerAction)
        ensures
            *final(self) == spec_step(*old(self), event, *hub).0,
            action_matches(a, spec_step(*old(self), event, *hub).1),
    {
        match self.state {
            ViewerState::Connecting => match event {
                ViewerEvent::Established => {
                    self.state = ViewerState::Streaming;
                    let current = hub.read();
                    ViewerAction::SendText(section_segments_to_string(&current))
                },
                ViewerEvent::PeerClosed => {
                    self.state = ViewerState::Closed;
                    ViewerAction::Idle
                },
                _ => ViewerAction::Idle,
            },
            ViewerState::Streaming => match event {
                ViewerEvent::Wake => {
                    match self.subscription.poll_change(&hub.signal) {
                        ChangePoll::Changed => {
                            let current = hub.read();
                            ViewerAction::SendText(section_segments_to_string(&current))
                        },
                        ChangePoll::Pending => ViewerAction::Idle,
                        ChangePoll::Closed => {
                            self.state = ViewerState::Closed;
                            ViewerAction::CloseSocket
                        },
                    }
                },
                ViewerEvent::SendFailed => {
                    self.state = ViewerState::Closed;
                    ViewerAction::Idle
                },
                ViewerEvent::PeerClosed => {
                    self.state = ViewerState::Closed;
                    ViewerAction::Idle
                },
                _ => ViewerAction::Idle,
            },
            ViewerState::Closed => ViewerAction::Idle,
        }
    }
}

} // verus!
