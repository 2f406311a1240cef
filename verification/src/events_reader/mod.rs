//! Sources of events and the subscribers they notify.
//!
//! A reader takes what its source produced, one item at a time, and answers
//! with the deliveries to make and with whether to go on. It makes one
//! delivery for each subscriber, in the order in which they registered.

use vstd::prelude::*;

use crate::app::LoopStep;

pub mod mqtt;
pub mod terminal;

verus! {

/// A value of which each subscriber gets one of its own.
pub trait Duplicate: View + Sized {
    fn duplicate(&self) -> (copy: Self)
        ensures
            copy@ == self@,
    ;
}

/// One event for one subscriber.
#[derive(Debug)]
pub struct Delivery<'a, S, E> {
    pub subscriber: &'a S,
    pub event: E,
}

/// Whether the deliveries hand the same event value to each of the
/// subscribers once, in their order, and to nobody else.
pub open spec fn reaches_all<S, E: View>(
    deliveries: Seq<Delivery<'_, S, E>>,
    subscribers: Seq<S>,
    event: E::V,
) -> bool {
    &&& deliveries.len() == subscribers.len()
    &&& forall|i: int|
        0 <= i < deliveries.len() ==> *(#[trigger] deliveries[i]).subscriber == subscribers[i]
            && deliveries[i].event@ == event
}

/// The subscribers of one source, in the order in which they registered.
/// A subscriber is whatever its owner wants to be handed back with each
/// event: a callback, a sender, a name. None ever leaves.
#[derive(Debug)]
pub struct Subscribers<S> {
    registered: Vec<S>,
}

impl<S> View for Subscribers<S> {
    type V = Seq<S>;

    closed spec fn view(&self) -> Seq<S> {
        self.registered@
    }
}

impl<S> Subscribers<S> {
    pub fn new() -> (subscribers: Subscribers<S>)
        ensures
            subscribers@ == Seq::<S>::empty(),
    {
        Subscribers { registered: Vec::new() }
    }

    /// How many have registered.
    pub fn len(&self) -> (count: usize)
        ensures
            count == self@.len(),
    {
        self.registered.len()
    }

    /// Registers one more subscriber, behind all others.
    pub fn subscribe(&mut self, subscriber: S)
        ensures
            final(self)@ == old(self)@.push(subscriber),
    {
        self.registered.push(subscriber);
    }

    /// The deliveries that one event causes: one for every subscriber, each
    /// with the same value.
    pub fn fan_out<'a, E: Duplicate>(&'a self, event: &E) -> (deliveries: Vec<Delivery<'a, S, E>>)
        ensures
            reaches_all(deliveries@, self@, event@),
    {
        let mut deliveries: Vec<Delivery<'a, S, E>> = Vec::new();
        let mut i: usize = 0;
        while i < self.registered.len()
            invariant
                i <= self.registered@.len(),
                reaches_all(deliveries@, self.registered@.take(i as int), event@),
            decreases self.registered@.len() - i,
        {
            deliveries.push(Delivery { subscriber: &self.registered[i], event: event.duplicate() });
            i += 1;
        }
        assert(self.registered@.take(i as int) =~= self.registered@);
        deliveries
    }
}

/// What a reader answers to one item of its source.
#[derive(Debug)]
pub struct ReaderStep<'a, S, E> {
    /// The deliveries to make now, in this order.
    pub deliveries: Vec<Delivery<'a, S, E>>,
    /// Whether to read on.
    pub next: LoopStep,
}

/// A source of events with subscribers.
///
/// Whoever owns the source hands its items to `take`, one at a time, makes
/// the deliveries that come back and goes on until `take` says otherwise.
/// One item announces at most one event, and an announced event reaches
/// every subscriber once, in the order of registration. A reader that has
/// stopped stays stopped and announces nothing.
pub trait EventsReader {
    /// What the subscribers are told.
    type Message: View;

    /// What the source produces.
    type Item;

    /// What stands for a subscriber.
    type Subscriber;

    /// Those who have subscribed, in their order.
    spec fn registered(&self) -> Seq<Self::Subscriber>;

    /// Whether the reading has ended.
    spec fn stopped(&self) -> bool;

    /// Registers a subscriber behind all others.
    fn subscribe(&mut self, callback: Self::Subscriber)
        ensures
            final(self).registered() == old(self).registered().push(callback),
            final(self).stopped() == old(self).stopped(),
    ;

    /// Takes one item of the source.
    fn take<'a>(&'a mut self, item: Self::Item) -> (step: ReaderStep<
        'a,
        Self::Subscriber,
        Self::Message,
    >)
        ensures
            final(self).registered() == old(self).registered(),
            final(self).stopped() == (step.next != LoopStep::Continue),
            step.deliveries@.len() == 0 || exists|event: <Self::Message as View>::V|
                reaches_all(step.deliveries@, old(self).registered(), event),
            step.deliveries@.len() > 0 ==> !old(self).stopped(),
    ;
}

} // verus!
