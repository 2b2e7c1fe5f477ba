//! The two routers, one step at a time.
//!
//! The command router takes requests from the senders of commands, the event
//! router takes events from the transport. Each is a loop around one of the
//! step functions below: the loop takes an item from its queue (`None` once
//! the queue is closed), calls the step function with exclusive access to the
//! registry, and then does what the returned action says. A step never
//! blocks, so the registry is never held across a wait.

use crate::error::HciError;
use crate::packet::{Command, Event};
use crate::registry::{oldest_waiting, PendingEntry, PendingRegistry};
use vstd::prelude::*;

verus! {

/// A request to send a command and to hand its answer to whoever waits on
/// `fut`.
#[derive(Debug, PartialEq, Eq)]
pub struct HciCommandEntry<P, R> {
    /// The command to send.
    pub cmd: Command<P>,
    /// The single-use channel that takes the answering event.
    pub fut: R,
}

/// What the command loop does after a step.
#[derive(Debug, PartialEq, Eq)]
pub enum CommandAction<P, R> {
    /// The command has been registered as pending: hand it to the transport.
    Forward(Command<P>),
    /// The request is refused and nothing has been registered. Dropping
    /// `request` closes its reply channel, which tells the sender.
    Reject { error: HciError, request: HciCommandEntry<P, R> },
    /// The request queue is closed: leave the loop.
    Stop,
}

/// What the event loop does after a step.
#[derive(Debug, PartialEq, Eq)]
pub enum EventAction<P, R> {
    /// The event answers the pending command `entry`, which has left the
    /// registry: send the event into `entry.reply`.
    Reply { entry: PendingEntry<R>, event: Event<P> },
    /// The event answers no pending command: pass it through the
    /// subscription filter.
    Unsolicited(Event<P>),
    /// The event is refused: drop it and go on.
    Reject { error: HciError, event: Event<P> },
    /// The event stream is closed: leave the loop.
    Stop,
}

/// The registry and the action after the command router has taken `request`
/// with `pending` in the registry.
pub open spec fn command_step<P, R>(
    pending: Seq<PendingEntry<R>>,
    request: Option<HciCommandEntry<P, R>>,
) -> (Seq<PendingEntry<R>>, CommandAction<P, R>) {
    match request {
        None => (pending, CommandAction::Stop),
        Some(request) => match request.cmd.opcode {
            None => (pending, CommandAction::Reject { error: HciError::MalformedCommand, request }),
            Some(opcode) => (
                pending.push(PendingEntry { opcode, reply: request.fut }),
                CommandAction::Forward(request.cmd),
            ),
        },
    }
}

/// The registry and the action after the event router has taken `arrival`
/// with `pending` in the registry.
pub open spec fn event_step<P, R>(pending: Seq<PendingEntry<R>>, arrival: Option<Event<P>>) -> (
    Seq<PendingEntry<R>>,
    EventAction<P, R>,
) {
    match arrival {
        None => (pending, EventAction::Stop),
        Some(event) => if event.malformed() {
            (pending, EventAction::Reject { error: HciError::MalformedEvent, event })
        } else {
            match event.opcode {
                None => (pending, EventAction::Unsolicited(event)),
                Some(opcode) => match oldest_waiting(pending, opcode) {
                    None => (pending, EventAction::Unsolicited(event)),
                    Some(at) => (
                        pending.remove(at),
                        EventAction::Reply { entry: pending[at], event },
                    ),
                },
            }
        },
    }
}

/// One step of the command router.
///
/// A command with an opcode is appended to the registry, behind all that are
/// pending, and comes back to be forwarded: it is registered before the
/// transport sees it, so its answer cannot arrive unexpected. A command
/// without an opcode is refused with `MalformedCommand`. `None` stands for
/// the closed request queue and ends the loop.
pub fn on_command<P, R>(
    registry: &mut PendingRegistry<R>,
    request: Option<HciCommandEntry<P, R>>,
) -> (action: CommandAction<P, R>)
    ensures
        (final(registry)@, action) == command_step(old(registry)@, request),
        request is None ==> action is Stop && final(registry)@ == old(registry)@,
{
    match request {
        None => CommandAction::Stop,
        Some(request) => match request.cmd.opcode {
            None => CommandAction::Reject { error: HciError::MalformedCommand, request },
            Some(opcode) => {
                let HciCommandEntry { cmd, fut } = request;
                registry.register(PendingEntry { opcode, reply: fut });
                CommandAction::Forward(cmd)
            },
        },
    }
}

/// One step of the event router.
///
/// An event without an event code is refused with `MalformedEvent`. An event
/// that carries the opcode of a pending command takes the oldest such command
/// out of the registry and comes back with it. Any other event comes back as
/// unsolicited, and the registry stays as it is. `None` stands for the closed
/// event stream: it ends the loop and resolves nothing.
pub fn on_event<P, R>(registry: &mut PendingRegistry<R>, arrival: Option<Event<P>>) -> (action:
    EventAction<P, R>)
    ensures
        (final(registry)@, action) == event_step(old(registry)@, arrival),
        arrival is None ==> action is Stop && final(registry)@ == old(registry)@,
{
    match arrival {
        None => EventAction::Stop,
        Some(event) => {
            if event.code.is_none() {
                return EventAction::Reject { error: HciError::MalformedEvent, event };
            }
            match event.opcode {
                None => EventAction::Unsolicited(event),
                Some(opcode) => match registry.try_resolve(opcode) {
                    None => EventAction::Unsolicited(event),
                    Some(entry) => EventAction::Reply { entry, event },
                },
            }
        },
    }
}

} // verus!
