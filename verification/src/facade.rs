//! The decisions behind the handle that callers hold.
//!
//! The handle enqueues commands, waits for their answers and owns the
//! subscriber stream. What it decides between two waits stands here.

use crate::error::HciError;
use crate::packet::Event;
use crate::subscription::SubscriptionSet;
use vstd::prelude::*;

verus! {

/// What becomes of an event that answers no pending command.
#[derive(Debug, PartialEq, Eq)]
pub enum Dispatch<P> {
    /// Its event code is subscribed to: send it to the subscriber queue.
    Forward(Event<P>),
    /// Nobody asked for it: drop it.
    Discard(Event<P>),
}

/// Whether `event` carries an event code that is in `subscribed`.
pub open spec fn wanted<P>(subscribed: Set<u8>, event: Event<P>) -> bool {
    match event.code {
        Some(code) => subscribed.contains(code),
        None => false,
    }
}

/// The subscription filter: `event` goes on where its code is in
/// `subscribed`, and is dropped where it is not or has none.
pub open spec fn dispatch<P>(subscribed: Set<u8>, event: Event<P>) -> Dispatch<P> {
    if wanted(subscribed, event) {
        Dispatch::Forward(event)
    } else {
        Dispatch::Discard(event)
    }
}

/// Passes `event` through the subscription filter.
pub fn dispatch_event<P>(subscriptions: &SubscriptionSet, event: Event<P>) -> (verdict: Dispatch<P>)
    ensures
        verdict == dispatch(subscriptions@, event),
{
    match event.code {
        Some(code) => {
            if subscriptions.contains(code) {
                Dispatch::Forward(event)
            } else {
                Dispatch::Discard(event)
            }
        },
        None => Dispatch::Discard(event),
    }
}

/// What the sender of a command is handed once its reply channel has
/// settled: the answering event, or `ChannelClosed` where the channel was
/// closed with nothing sent into it.
pub fn reply_result<P>(settled: Option<Event<P>>) -> (result: Result<Event<P>, HciError>)
    ensures
        result == match settled {
            Some(event) => Ok::<Event<P>, HciError>(event),
            None => Err::<Event<P>, HciError>(HciError::ChannelClosed),
        },
{
    match settled {
        Some(event) => Ok(event),
        None => Err(HciError::ChannelClosed),
    }
}

} // verus!
