//! The browser-side state machine: what a director or viewer page does with
//! its push-channel socket.
//!
//! The retry policy is explicit and deliberate: there is none. A failed
//! open, and a failed receive, each lead to `Failed`, and `Failed` is
//! terminal — the page shows what it last had (or the failure) and gives
//! up. Every decoded frame replaces the whole displayed cue.

use vstd::prelude::*;

use crate::section::SectionState;
use crate::wire::{parse_section_message, spec_parse};

verus! {

/// Where the client stands with its push channel.
#[derive(Clone, Copy, PartialEq, Eq, Debug)]
pub enum ClientState {
    /// No open has been attempted yet.
    Disconnected,
    /// An open is in flight.
    Connecting,
    /// Listening for pushed frames.
    Connected,
    /// Terminal: the open or the stream failed, and this client never
    /// retries.
    Failed,
}

/// What can happen to the client.
pub enum ClientEvent {
    /// The client begins opening its socket.
    OpenStarted,
    /// The socket opened.
    OpenSucceeded,
    /// The socket could not be opened.
    OpenFailed,
    /// A text frame arrived with this payload.
    TextReceived(String),
    /// A frame arrived that carries no cue (binary, ping and the like).
    NonTextFrame,
    /// Receiving from the stream failed.
    ReceiveFailed,
}

/// What the surrounding page should do in reply.
#[derive(Clone, Copy, PartialEq, Eq, Debug)]
pub enum ClientAction {
    /// Replace the displayed cue, whole, with this one.
    ShowSection(SectionState),
    /// Nothing; keep listening.
    Idle,
}

/// The whole transition table. Only a text frame received while connected
/// produces an action: the decoded cue, displayed whole. Failures move to
/// `Failed` and nothing leads out of it.
pub open spec fn spec_client_step(s: ClientState, e: ClientEvent) -> (ClientState, ClientAction) {
    match s {
        ClientState::Disconnected => match e {
            ClientEvent::OpenStarted => (ClientState::Connecting, ClientAction::Idle),
            _ => (s, ClientAction::Idle),
        },
        ClientState::Connecting => match e {
            ClientEvent::OpenSucceeded => (ClientState::Connected, ClientAction::Idle),
            ClientEvent::OpenFailed => (ClientState::Failed, ClientAction::Idle),
            _ => (s, ClientAction::Idle),
        },
        ClientState::Connected => match e {
            ClientEvent::TextReceived(m) => (
                ClientState::Connected,
                ClientAction::ShowSection(spec_parse(m@)),
            ),
            ClientEvent::NonTextFrame => (s, ClientAction::Idle),
            ClientEvent::ReceiveFailed => (ClientState::Failed, ClientAction::Idle),
            _ => (s, ClientAction::Idle),
        },
        ClientState::Failed => (s, ClientAction::Idle),
    }
}

/// One page's client, holding only where it stands.
#[derive(Clone, Copy, PartialEq, Eq, Debug)]
pub struct ClientLink {
    /// Where the client stands.
    pub state: ClientState,
}

impl ClientLink {
    /// A client that has not yet touched its socket.
    pub fn start() -> (c: ClientLink)
        ensures
            c.state is Disconnected,
    {
        ClientLink { state: ClientState::Disconnected }
    }

    /// Feeds the client one event; steps exactly as the transition table
    /// says and hands back what the page should do.
    pub fn on_event(&mut self, event: ClientEvent) -> (a: ClientAction)
        ensures
            ({
                let stepped = spec_client_step(old(self).state, event);
                final(self).state == stepped.0 && a == stepped.1
            }),
    {
        match self.state {
            ClientState::Disconnected => match event {
                ClientEvent::OpenStarted => {
                    self.state = ClientState::Connecting;
                    ClientAction::Idle
                },
                _ => ClientAction::Idle,
            },
            ClientState::Connecting => match event {
                ClientEvent::OpenSucceeded => {
                    self.state = ClientState::Connected;
                    ClientAction::Idle
                },
                ClientEvent::OpenFailed => {
                    self.state = ClientState::Failed;
                    ClientAction::Idle
                },
                _ => ClientAction::Idle,
            },
            ClientState::Connected => match event {
                ClientEvent::TextReceived(message) => ClientAction::ShowSection(
                    parse_section_message(message.as_str()),
                ),
                ClientEvent::NonTextFrame => ClientAction::Idle,
                ClientEvent::ReceiveFailed => {
                    self.state = ClientState::Failed;
                    ClientAction::Idle
                },
                _ => ClientAction::Idle,
            },
            ClientState::Failed => ClientAction::Idle,
        }
    }
}

} // verus!
