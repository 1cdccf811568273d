//! What to do with what connects to the host.

use vstd::prelude::*;

verus! {

/// What happened on a connection.
#[derive(Clone, Copy, Debug, PartialEq, Eq, Structural)]
pub enum ConnectionEvent {
    /// The handshake was completed, or failed.
    Handshake { completed: bool },
    /// The first message was received; `registration` is whether it registers a
    /// plugin.
    Received { registration: bool },
    /// The first message could not be received.
    ReceiveFailed,
}

/// What to do with a connection.
#[derive(Clone, Copy, Debug, PartialEq, Eq, Structural)]
pub enum ConnectionStep {
    /// Wait for the first message.
    Receive,
    /// Register the plugin, and hand it the connection.
    Register,
    /// Process the message, from no plugin in particular.
    Process,
    /// Drop the connection.
    Close,
}

/// Finds what to do with a connection.
pub fn next_step(event: ConnectionEvent) -> (step: ConnectionStep)
    ensures
        step == match event {
            ConnectionEvent::Handshake { completed } => if completed {
                ConnectionStep::Receive
            } else {
                ConnectionStep::Close
            },
            ConnectionEvent::Received { registration } => if registration {
                ConnectionStep::Register
            } else {
                ConnectionStep::Process
            },
            ConnectionEvent::ReceiveFailed => ConnectionStep::Close,
        },
{
    match event {
        ConnectionEvent::Handshake { completed: true } => ConnectionStep::Receive,
        ConnectionEvent::Handshake { completed: false } => ConnectionStep::Close,
        ConnectionEvent::Received { registration: true } => ConnectionStep::Register,
        ConnectionEvent::Received { registration: false } => ConnectionStep::Process,
        ConnectionEvent::ReceiveFailed => ConnectionStep::Close,
    }
}

} // verus!
