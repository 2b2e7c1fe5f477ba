//! The event codes that a consumer has asked to be told of.

use std::collections::HashSet;
use vstd::prelude::*;

verus! {

/// The set of event codes whose events are passed on to the subscriber when
/// they answer no pending command.
pub struct SubscriptionSet {
    codes: HashSet<u8>,
}

impl View for SubscriptionSet {
    type V = Set<u8>;

    closed spec fn view(&self) -> Set<u8> {
        self.codes@
    }
}

impl SubscriptionSet {
    /// A set to which nothing has been subscribed.
    pub fn new() -> (subscriptions: Self)
        ensures
            subscriptions@ == Set::<u8>::empty(),
    {
        SubscriptionSet { codes: HashSet::new() }
    }

    /// Subscribes to the events with code `event_code`. Doing so again
    /// changes nothing.
    pub fn register_event(&mut self, event_code: u8)
        ensures
            final(self)@ == old(self)@.insert(event_code),
    {
        self.codes.insert(event_code);
    }

    /// Whether the events with code `event_code` have been subscribed to.
    pub fn contains(&self, event_code: u8) -> (subscribed: bool)
        ensures
            subscribed == self@.contains(event_code),
    {
        self.codes.contains(&event_code)
    }
}

} // verus!
