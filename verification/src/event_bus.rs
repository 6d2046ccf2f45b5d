//! Publish/subscribe delivery of events to handlers keyed by event type.
use vstd::prelude::*;
use std::collections::VecDeque;
use crate::event::{event_type_name, Event};
use crate::text::{chars_eq, chars_of};

verus! {

/// A sink for the events that the effect executor produces.
///
/// `delivered` is the sequence of events handed to the sink so far; `emit`
/// adds one event at its end.
pub trait EventSink {
    spec fn delivered(&self) -> Seq<Event>;

    /// Delivers or queues an event.
    fn emit(&mut self, event: Event)
        ensures
            final(self).delivered() == old(self).delivered().push(event),
    ;
}

impl EventSink for Vec<Event> {
    open spec fn delivered(&self) -> Seq<Event> {
        self@
    }

    fn emit(&mut self, event: Event) {
        self.push(event);
    }
}

impl EventSink for VecDeque<Event> {
    open spec fn delivered(&self) -> Seq<Event> {
        self@
    }

    fn emit(&mut self, event: Event) {
        self.push_back(event);
    }
}

/// Whether a handler accepts every event.
pub open spec fn accepts_all_events<H: Fn(&Event)>(handler: H) -> bool {
    forall|e: Event| call_requires(handler, (&e,))
}

/// An event bus: handlers subscribe to an event type and are called, in the
/// order they subscribed, with each event of that type.
pub struct EventBus<H: Fn(&Event)> {
    subscribers: Vec<(Vec<char>, H)>,
    delivered_events: Ghost<Seq<Event>>,
    handler_calls: Ghost<Seq<(int, Event)>>,
}

impl<H: Fn(&Event)> EventBus<H> {
    #[verifier::type_invariant]
    spec fn wf(&self) -> bool {
        forall|i: int| 0 <= i < self.subscribers@.len() ==> accepts_all_events(#[trigger] self.subscribers@[i].1)
    }

    /// The subscriptions, in the order they were made: the event type and the
    /// handler.
    pub closed spec fn subscriptions(&self) -> Seq<(Seq<char>, H)> {
        self.subscribers@.map_values(|s: (Vec<char>, H)| (s.0@, s.1))
    }

    /// The events emitted on this bus so far.
    pub closed spec fn history(&self) -> Seq<Event> {
        self.delivered_events@
    }

    /// The handler calls made so far, in order: the position of the
    /// subscription whose handler was called, and the event it was called
    /// with.
    pub closed spec fn calls(&self) -> Seq<(int, Event)> {
        self.handler_calls@
    }

    /// A bus without subscribers.
    pub fn new() -> (r: Self)
        ensures
            r.subscriptions().len() == 0,
            r.history().len() == 0,
            r.calls().len() == 0,
    {
        let r = Self {
            subscribers: Vec::new(),
            delivered_events: Ghost(Seq::empty()),
            handler_calls: Ghost(Seq::empty()),
        };
        assert(r.subscriptions() =~= Seq::empty());
        r
    }

    /// Subscribes `handler` to events of type `event_type`.
    pub fn subscribe(&mut self, event_type: &str, handler: H)
        requires
            accepts_all_events(handler),
        ensures
            final(self).subscriptions() == old(self).subscriptions().push((event_type@, handler)),
            final(self).history() == old(self).history(),
            final(self).calls() == old(self).calls(),
    {
        proof {
            use_type_invariant(&*self);
        }
        let key = chars_of(event_type);
        let ghost before = self.subscriptions();
        let mut subscribers: Vec<(Vec<char>, H)> = Vec::new();
        std::mem::swap(&mut subscribers, &mut self.subscribers);
        subscribers.push((key, handler));
        self.subscribers = subscribers;
        assert(self.subscriptions() =~= before.push((event_type@, handler)));
    }

    /// The positions of the subscriptions to `event_type`, in subscription
    /// order.
    pub fn subscribers_of(&self, event_type: &str) -> (r: Vec<usize>)
        ensures
            r@ == matching_subscriptions(self.subscriptions(), event_type@),
    {
        let key = chars_of(event_type);
        let mut out: Vec<usize> = Vec::new();
        let mut i: usize = 0;
        while i < self.subscribers.len()
            invariant
                i <= self.subscribers@.len(),
                key@ == event_type@,
                self.subscriptions().len() == self.subscribers@.len(),
                out@ == matching_subscriptions(self.subscriptions().take(i as int), event_type@),
            decreases self.subscribers@.len() - i,
        {
            assert(self.subscriptions().take(i + 1) =~= self.subscriptions().take(i as int).push(
                self.subscriptions()[i as int],
            ));
            assert(self.subscriptions().take(i + 1).drop_last() =~= self.subscriptions().take(i as int));
            assert(self.subscriptions()[i as int].0 == self.subscribers@[i as int].0@);
            if chars_eq(self.subscribers[i].0.as_slice(), key.as_slice()) {
                out.push(i);
            }
            i += 1;
        }
        assert(self.subscriptions().take(self.subscribers@.len() as int) =~= self.subscriptions());
        out
    }

    /// Calls every handler subscribed to the event's type, in subscription
    /// order, with the event.
    pub fn emit(&mut self, event: &Event)
        ensures
            final(self).subscriptions() == old(self).subscriptions(),
            final(self).history() == old(self).history().push(*event),
            final(self).calls() == old(self).calls() + dispatch_of(old(self).subscriptions(), *event),
            forall|j: int| 0 <= j < dispatch_of(old(self).subscriptions(), *event).len() ==> call_ensures(
                old(self).subscriptions()[#[trigger] dispatch_of(old(self).subscriptions(), *event)[j].0].1,
                (event,),
                (),
            ),
    {
        proof {
            use_type_invariant(&*self);
        }
        let targets = self.subscribers_of(event.event_type());
        let ghost subscribers = self.subscribers@;
        let ghost start = self.handler_calls@;
        let count = self.subscribers.len();
        proof {
            assert(self.subscriptions().len() == count);
            lemma_matching_subscriptions_in_range(self.subscriptions(), event_type_name(*event));
        }
        let mut k: usize = 0;
        while k < targets.len()
            invariant
                k <= targets@.len(),
                self.subscribers@ == subscribers,
                self.delivered_events == old(self).delivered_events,
                forall|j: int| 0 <= j < targets@.len() ==> #[trigger] targets@[j] < self.subscribers@.len(),
                forall|i: int| 0 <= i < self.subscribers@.len() ==> accepts_all_events(#[trigger] self.subscribers@[i].1),
                self.handler_calls@ == start + targets@.take(k as int).map_values(|i: usize| (i as int, *event)),
                targets@ == matching_subscriptions(old(self).subscriptions(), event_type_name(*event)),
                self.subscriptions() == old(self).subscriptions(),
                forall|j: int| 0 <= j < k ==> call_ensures(
                    old(self).subscriptions()[#[trigger] targets@[j] as int].1,
                    (event,),
                    (),
                ),
            decreases targets@.len() - k,
        {
            let index = targets[k];
            let handler = &self.subscribers[index].1;
            handler(event);
            proof {
                assert(old(self).subscriptions()[index as int].1 == subscribers[index as int].1);
            }
            proof {
                self.handler_calls@ = self.handler_calls@.push((index as int, *event));
            }
            assert(targets@.take(k + 1) =~= targets@.take(k as int).push(index));
            assert(targets@.take(k + 1).map_values(|i: usize| (i as int, *event)) =~= targets@.take(
                k as int,
            ).map_values(|i: usize| (i as int, *event)).push((index as int, *event)));
            k += 1;
        }
        assert(targets@.take(targets@.len() as int) =~= targets@);
        self.delivered_events = Ghost(self.delivered_events@.push(*event));
    }
}

/// The handler calls an emitted event makes: one per subscription to its
/// type, in subscription order, each with the event.
pub open spec fn dispatch_of<H>(subs: Seq<(Seq<char>, H)>, event: Event) -> Seq<(int, Event)> {
    matching_subscriptions(subs, event_type_name(event)).map_values(|i: usize| (i as int, event))
}

/// The positions, in order, of the subscriptions in `subs` whose event type is
/// `event_type`.
pub open spec fn matching_subscriptions<H>(subs: Seq<(Seq<char>, H)>, event_type: Seq<char>) -> Seq<usize>
    decreases subs.len(),
{
    if subs.len() == 0 {
        Seq::empty()
    } else {
        let earlier = matching_subscriptions(subs.drop_last(), event_type);
        if subs.last().0 == event_type {
            earlier.push((subs.len() - 1) as usize)
        } else {
            earlier
        }
    }
}

/// Every position that `matching_subscriptions` lists is a position of `subs`.
pub proof fn lemma_matching_subscriptions_in_range<H>(subs: Seq<(Seq<char>, H)>, event_type: Seq<char>)
    requires
        subs.len() <= usize::MAX,
    ensures
        forall|j: int|
            0 <= j < matching_subscriptions(subs, event_type).len() ==> #[trigger] matching_subscriptions(
                subs,
                event_type,
            )[j] < subs.len(),
    decreases subs.len(),
{
    if subs.len() > 0 {
        let earlier = matching_subscriptions(subs.drop_last(), event_type);
        lemma_matching_subscriptions_in_range(subs.drop_last(), event_type);
        assert forall|j: int| 0 <= j < matching_subscriptions(subs, event_type).len() implies #[trigger] matching_subscriptions(
            subs,
            event_type,
        )[j] < subs.len() by {
            if j < earlier.len() {
                assert(earlier[j] < subs.drop_last().len());
            }
        }
    }
}

/// A new subscription to `event_type` is routed the events of that type,
/// after the handlers that subscribed before it, and changes nothing for
/// other types.
pub proof fn lemma_subscribe_routes<H>(subs: Seq<(Seq<char>, H)>, event_type: Seq<char>, handler: H, other: Seq<char>)
    requires
        subs.len() < usize::MAX,
        other != event_type,
    ensures
        matching_subscriptions(subs.push((event_type, handler)), event_type) == matching_subscriptions(
            subs,
            event_type,
        ).push(subs.len() as usize),
        matching_subscriptions(subs.push((event_type, handler)), other) == matching_subscriptions(subs, other),
{
    assert(subs.push((event_type, handler)).drop_last() =~= subs);
}

impl<H: Fn(&Event)> Default for EventBus<H> {
    fn default() -> (r: Self)
        ensures
            r.subscriptions().len() == 0,
            r.history().len() == 0,
            r.calls().len() == 0,
    {
        Self::new()
    }
}

impl<H: Fn(&Event)> EventSink for EventBus<H> {
    closed spec fn delivered(&self) -> Seq<Event> {
        self.delivered_events@
    }

    fn emit(&mut self, event: Event) {
        EventBus::emit(self, &event);
    }
}

} // verus!
