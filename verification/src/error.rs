//! Failures of the correlation layer.

use vstd::prelude::*;

verus! {

/// Why a command or an event could not be handled.
#[derive(Clone, Copy, Debug, PartialEq, Eq, Structural)]
pub enum HciError {
    /// No opcode could be derived from a command.
    MalformedCommand,
    /// No event code could be derived from an event.
    MalformedEvent,
    /// A queue or a reply channel was closed by its peer.
    ChannelClosed,
}

} // verus!
