//! Commands and events as the correlation layer sees them.
//!
//! A frame is carried as an opaque payload of type `P`. Beside it stand the
//! fields that the packet layer derived from it; a field is `None` where
//! nothing could be derived.

use vstd::prelude::*;

verus! {

/// A command for the controller.
#[derive(Debug, PartialEq, Eq)]
pub struct Command<P> {
    /// The opcode, which the answering event repeats.
    pub opcode: Option<u16>,
    /// The frame itself.
    pub payload: P,
}

/// An event from the controller.
#[derive(Debug, PartialEq, Eq)]
pub struct Event<P> {
    /// The category of the event.
    pub code: Option<u8>,
    /// The opcode of the command that the event answers, for an event of the
    /// command-complete or command-status class.
    pub opcode: Option<u16>,
    /// The frame itself.
    pub payload: P,
}

impl<P> Command<P> {
    /// A command without an opcode cannot be matched with its answer.
    pub open spec fn malformed(self) -> bool {
        self.opcode is None
    }
}

impl<P> Event<P> {
    /// An event without an event code cannot be classified.
    pub open spec fn malformed(self) -> bool {
        self.code is None
    }

    /// The event answers a command that was sent with `opcode`.
    pub open spec fn answers(self, opcode: u16) -> bool {
        !self.malformed() && self.opcode == Some(opcode)
    }
}

} // verus!
