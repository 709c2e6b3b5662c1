//! Core of a line-oriented chat client with runtime-loadable extensions:
//! the extension contract, the loading protocol with its typed errors, an
//! append-only registry of loaded extensions, per-event dispatch, and the
//! grammar of prefixed admin commands.
//!
//! The chat-protocol connection itself and the operating-system side of
//! dynamic module loading are external collaborators: callers drive this
//! core with plain event values and perform the outbound actions it
//! returns.

use vstd::prelude::*;

pub mod action;
pub mod command;
pub mod engine;
pub mod extension;
pub mod loader;
pub mod registry;
pub mod text;

verus! {

/// One inbound chat message, as handed in by the protocol boundary.
pub struct ChatEvent {
    /// Identity of the sender.
    pub source: String,
    /// Channel or user the message was addressed to.
    pub target: String,
    /// Raw message text.
    pub message: String,
}

impl ChatEvent {
    pub fn new(source: String, target: String, message: String) -> (e: ChatEvent)
        ensures
            e.source@ == source@,
            e.target@ == target@,
            e.message@ == message@,
    {
        ChatEvent { source, target, message }
    }
}

} // verus!
