//! What the routers guarantee, stated over the step functions and proved.

use crate::facade::{dispatch, wanted, Dispatch};
use crate::packet::Event;
use crate::registry::{is_oldest_waiting, lemma_none_waiting, lemma_oldest_waiting_at, PendingEntry};
use crate::router::{event_step, EventAction};
use vstd::prelude::*;

verus! {

/// No entry of `pending` waits on an opcode that `event` carries.
pub open spec fn answers_none<P, R>(pending: Seq<PendingEntry<R>>, event: Event<P>) -> bool {
    forall|j: int| 0 <= j < pending.len() ==> !event.answers((#[trigger] pending[j]).opcode)
}

/// The event router, with `pending` in the registry and `subscribed` in the
/// subscription set, puts `event` on the subscriber stream.
pub open spec fn reaches_subscriber<P, R>(
    pending: Seq<PendingEntry<R>>,
    subscribed: Set<u8>,
    event: Event<P>,
) -> bool {
    &&& event_step(pending, Some(event)).1 == EventAction::<P, R>::Unsolicited(event)
    &&& dispatch(subscribed, event) == Dispatch::Forward(event)
}

/// The registry after the event router has taken `events`, first to last,
/// starting with `pending`.
pub open spec fn pending_after<P, R>(pending: Seq<PendingEntry<R>>, events: Seq<Event<P>>) -> Seq<
    PendingEntry<R>,
>
    decreases events.len(),
{
    if events.len() == 0 {
        pending
    } else {
        event_step(pending_after(pending, events.drop_last()), Some(events.last())).0
    }
}

/// The subscriber stream after the event router has taken `events`, first to
/// last, starting with `pending` and with `subscribed` unchanged throughout.
pub open spec fn subscriber_stream<P, R>(
    pending: Seq<PendingEntry<R>>,
    subscribed: Set<u8>,
    events: Seq<Event<P>>,
) -> Seq<Event<P>>
    decreases events.len(),
{
    if events.len() == 0 {
        Seq::empty()
    } else {
        let earlier = subscriber_stream(pending, subscribed, events.drop_last());
        if reaches_subscriber(pending_after(pending, events.drop_last()), subscribed, events.last()) {
            earlier.push(events.last())
        } else {
            earlier
        }
    }
}

/// A pending command that alone waits on its opcode is handed the next event
/// that carries that opcode, and leaves the registry.
pub proof fn sole_waiter_receives_answer<P, R>(
    pending: Seq<PendingEntry<R>>,
    at: int,
    event: Event<P>,
)
    requires
        0 <= at < pending.len(),
        event.answers(pending[at].opcode),
        forall|j: int| at < j < pending.len() ==> (#[trigger] pending[j]).opcode != pending[at].opcode,
        forall|j: int| 0 <= j < at ==> (#[trigger] pending[j]).opcode != pending[at].opcode,
    ensures
        event_step(pending, Some(event)) == (
            pending.remove(at),
            EventAction::Reply { entry: pending[at], event },
        ),
{
    lemma_oldest_waiting_at(pending, pending[at].opcode, at);
}

/// Of two pending commands with one opcode, the one that was registered
/// first, where none older waits on that opcode, is handed the first event
/// that carries it. The other stays pending.
pub proof fn first_submitted_answered_first<P, R>(
    pending: Seq<PendingEntry<R>>,
    first: int,
    second: int,
    event: Event<P>,
)
    requires
        0 <= first < second < pending.len(),
        pending[first].opcode == pending[second].opcode,
        event.answers(pending[first].opcode),
        forall|j: int| 0 <= j < first ==> (#[trigger] pending[j]).opcode != pending[first].opcode,
    ensures
        event_step(pending, Some(event)) == (
            pending.remove(first),
            EventAction::Reply { entry: pending[first], event },
        ),
        pending.remove(first)[second - 1] == pending[second],
{
    lemma_oldest_waiting_at(pending, pending[first].opcode, first);
}

/// An event that answers no pending command and whose code is not
/// subscribed to is dropped: it resolves nothing and does not reach the
/// subscriber.
pub proof fn unwanted_event_is_dropped<P, R>(
    pending: Seq<PendingEntry<R>>,
    subscribed: Set<u8>,
    event: Event<P>,
)
    requires
        answers_none(pending, event),
        !wanted(subscribed, event),
    ensures
        event_step(pending, Some(event)).0 == pending,
        !(event_step(pending, Some(event)).1 is Reply),
        !reaches_subscriber(pending, subscribed, event),
{
    if event.opcode is Some && !event.malformed() {
        lemma_answers_none(pending, event);
    }
}

/// Whatever the registry held and whatever arrived, every event on the
/// subscriber stream has a code that is subscribed to.
pub proof fn subscriber_stream_holds_only_wanted<P, R>(
    pending: Seq<PendingEntry<R>>,
    subscribed: Set<u8>,
    events: Seq<Event<P>>,
)
    ensures
        forall|k: int|
            0 <= k < subscriber_stream(pending, subscribed, events).len() ==> wanted(
                subscribed,
                #[trigger] subscriber_stream(pending, subscribed, events)[k],
            ),
    decreases events.len(),
{
    if events.len() > 0 {
        subscriber_stream_holds_only_wanted(pending, subscribed, events.drop_last());
        let stream = subscriber_stream(pending, subscribed, events);
        let earlier = subscriber_stream(pending, subscribed, events.drop_last());
        assert forall|k: int| 0 <= k < stream.len() implies wanted(
            subscribed,
            #[trigger] stream[k],
        ) by {
            if k < earlier.len() {
                assert(stream[k] == earlier[k]);
            }
        }
    }
}

/// An event that answers no pending command and whose code is subscribed to
/// reaches the subscriber, and the registry stays as it is.
pub proof fn wanted_event_reaches_subscriber<P, R>(
    pending: Seq<PendingEntry<R>>,
    subscribed: Set<u8>,
    event: Event<P>,
)
    requires
        answers_none(pending, event),
        wanted(subscribed, event),
    ensures
        event_step(pending, Some(event)).0 == pending,
        reaches_subscriber(pending, subscribed, event),
{
    if event.opcode is Some {
        lemma_answers_none(pending, event);
    }
}

/// Where no event of a batch answers a pending command, the subscriber
/// stream is the batch without the events that are not subscribed to: each
/// event that is subscribed to stands on it once for each time it arrived,
/// in the order of arrival. The registry stays as it is.
pub proof fn subscriber_stream_keeps_arrival_order<P, R>(
    pending: Seq<PendingEntry<R>>,
    subscribed: Set<u8>,
    events: Seq<Event<P>>,
)
    requires
        forall|i: int| 0 <= i < events.len() ==> answers_none(pending, #[trigger] events[i]),
    ensures
        pending_after(pending, events) == pending,
        subscriber_stream(pending, subscribed, events) == events.filter(
            |event: Event<P>| wanted(subscribed, event),
        ),
    decreases events.len(),
{
    reveal(Seq::filter);
    if events.len() > 0 {
        let earlier = events.drop_last();
        assert forall|i: int| 0 <= i < earlier.len() implies answers_none(
            pending,
            #[trigger] earlier[i],
        ) by {
            assert(earlier[i] == events[i]);
        }
        subscriber_stream_keeps_arrival_order(pending, subscribed, earlier);
        assert(answers_none(pending, events[events.len() - 1]));
        if wanted(subscribed, events.last()) {
            wanted_event_reaches_subscriber(pending, subscribed, events.last());
        } else {
            unwanted_event_is_dropped(pending, subscribed, events.last());
        }
    }
}

/// Subscribing to a code a second time changes neither the subscription set
/// nor what becomes of any event.
pub proof fn register_event_is_idempotent<P>(subscribed: Set<u8>, event_code: u8, event: Event<P>)
    ensures
        subscribed.insert(event_code).insert(event_code) == subscribed.insert(event_code),
        dispatch(subscribed.insert(event_code).insert(event_code), event) == dispatch(
            subscribed.insert(event_code),
            event,
        ),
{
    assert(subscribed.insert(event_code).insert(event_code) =~= subscribed.insert(event_code));
}

/// An event that answers none of the pending commands finds no entry that
/// waits on its opcode.
proof fn lemma_answers_none<P, R>(pending: Seq<PendingEntry<R>>, event: Event<P>)
    requires
        answers_none(pending, event),
        !event.malformed(),
        event.opcode is Some,
    ensures
        crate::registry::oldest_waiting(pending, event.opcode->Some_0) is None,
{
    lemma_none_waiting(pending, event.opcode->Some_0);
    assert forall|j: int| 0 <= j < pending.len() implies (#[trigger] pending[j]).opcode
        != event.opcode->Some_0 by {
        assert(!event.answers(pending[j].opcode));
    }
}

} // verus!
