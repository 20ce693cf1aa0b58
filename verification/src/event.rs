//! The synchronous single-subscriber event.

use vstd::prelude::*;
use std::sync::mpsc::Receiver;
use crate::dispatch::{Dispatch, Route};
use crate::once_event::{OnceEvent, OnceModel};
use crate::slot::Slot;
use crate::subscriber::{resolved_or_skipped, Bound, Listener, Signal, Subscriber};

verus! {

/// The state of an event as its contracts see it.
#[verifier::reject_recursive_types(T)]
pub struct EventModel<T> {
    /// The values handed to the persistent callback since it was installed,
    /// where one is installed.
    pub persistent: Option<Seq<T>>,
    /// The one-shot consumers.
    pub once: OnceModel<T>,
}

impl<T> EventModel<T> {
    /// No consumer of any kind.
    pub open spec fn empty() -> Self {
        EventModel { persistent: None, once: OnceModel::empty() }
    }

    /// Whether no consumer is installed.
    pub open spec fn vacant(self) -> bool {
        self.persistent is None && self.once.vacant()
    }

    /// At most one consumer is installed.
    pub open spec fn wf(self) -> bool {
        &&& self.once.wf()
        &&& self.persistent is None || self.once.vacant()
    }

    /// The consumer that the next trigger goes to: the persistent callback
    /// first, then the one-shot callback, then the one-shot channel.
    pub open spec fn route(self) -> Route {
        if self.persistent is Some {
            Route::Persistent
        } else {
            self.once.route()
        }
    }

    /// The state after a persistent callback was installed: nothing is on
    /// its record yet.
    pub open spec fn with_persistent(self) -> Self {
        EventModel { persistent: Some(Seq::empty()), ..self }
    }

    /// The state after a one-shot callback was installed.
    pub open spec fn with_callback(self, fired: spec_fn(T) -> bool) -> Self {
        EventModel { once: self.once.with_callback(fired), ..self }
    }

    /// The state after the sending half of a one-shot channel was
    /// installed.
    pub open spec fn with_channel(self) -> Self {
        EventModel { once: self.once.with_channel(), ..self }
    }

    /// The state after a trigger of `value`: the persistent callback has
    /// one more value on record, or the one-shot consumer is gone.
    pub open spec fn trigger(self, value: T) -> Self {
        match self.persistent {
            Some(log) => EventModel { persistent: Some(log.push(value)), ..self },
            None => EventModel { once: self.once.trigger(), ..self },
        }
    }

    /// The state after a trigger of each of `values` in turn.
    pub open spec fn trigger_all(self, values: Seq<T>) -> Self
        decreases values.len(),
    {
        if values.len() == 0 {
            self
        } else {
            self.trigger_all(values.drop_last()).trigger(values.last())
        }
    }
}

/// A single-subscriber event.
#[verifier::reject_recursive_types(T)]
pub struct Event<T = ()> {
    subscriber: Slot<Box<dyn Subscriber<T>>>,
    once: OnceEvent<T>,
}

impl<T> View for Event<T> {
    type V = EventModel<T>;

    /// The record of the persistent callback and the one-shot consumers.
    /// What the persistent callback ensures of a value is given by
    /// [`Event::hears`].
    closed spec fn view(&self) -> EventModel<T> {
        EventModel {
            persistent: match self.subscriber@ {
                Some(s) => Some(s.received()),
                None => None,
            },
            once: self.once@,
        }
    }
}

impl<T: 'static> Event<T> {
    /// Whether the installed consumer, if any, is ready to be called, and
    /// the persistent callback has returned from a call on each value on
    /// its record.
    pub closed spec fn ready(&self) -> bool {
        &&& self.once.ready()
        &&& self.subscriber@ matches Some(s) ==> {
            &&& s.ready()
            &&& forall|i: int|
                0 <= i < s.received().len() ==> s.heard(#[trigger] s.received()[i])
        }
    }

    /// What holds of `value` once the persistent callback has returned from
    /// a call with it: what the closure that was installed ensures. It
    /// holds of no value where no persistent callback is installed.
    pub closed spec fn hears(&self, value: T) -> bool {
        self.subscriber@ matches Some(s) && s.heard(value)
    }

    /// Only a persistent callback hears.
    pub proof fn lemma_hears_needs_callback(&self, value: T)
        ensures
            self.hears(value) ==> self@.persistent is Some,
    {
    }

    /// The persistent callback has returned from a call on each value on
    /// its record.
    pub proof fn lemma_record_was_heard(&self, i: int)
        requires
            self.wf(),
            self@.persistent is Some,
            0 <= i < self@.persistent->0.len(),
        ensures
            self.hears(self@.persistent->0[i]),
    {
    }

    /// At most one consumer is installed, and it is ready.
    pub open spec fn wf(&self) -> bool {
        self@.wf() && self.ready()
    }

    /// An event with no consumer, as `default()` gives it.
    pub fn const_default() -> (event: Self)
        ensures
            event.wf(),
            event@ == EventModel::<T>::empty(),
            forall|v: T| !#[trigger] event.hears(v),
    {
        Event { subscriber: Slot::new(), once: OnceEvent::const_default() }
    }

    /// The consumer that the next trigger goes to.
    pub fn route(&self) -> (route: Route)
        ensures
            route == self@.route(),
    {
        if self.subscriber.is_set() {
            Route::Persistent
        } else {
            self.once.route()
        }
    }

    /// Passes on an event with no consumer of any kind. It is the check
    /// that every installation begins with: a caller that was not verified
    /// and calls it on an occupied event is stopped with a message that
    /// names the consumer in the way.
    pub fn check_empty(&self)
        requires
            self@.vacant(),
    {
        self.subscriber.expect_empty("Event already has a subscriber");
        self.once.check_empty();
    }

    /// Installs a persistent callback that takes no value, on an event with
    /// no consumer.
    pub fn sub<F: FnMut() + Send + 'static>(&mut self, action: F)
        requires
            old(self).wf(),
            old(self)@.vacant(),
            call_requires(action, ()),
        ensures
            final(self).wf(),
            final(self)@ == old(self)@.with_persistent(),
            forall|v: T| #[trigger] final(self).hears(v) <==> call_ensures(action, (), ()),
    {
        self.check_empty();
        self.subscriber.install(Box::new(Signal::new(action))).expect(
            "Event already has a subscriber",
        )
    }

    /// Installs a persistent callback that takes each value, on an event
    /// with no consumer.
    pub fn val<F: FnMut(T) + Send + 'static>(&mut self, action: F)
        requires
            old(self).wf(),
            old(self)@.vacant(),
            forall|v: T| call_requires(action, (v,)),
        ensures
            final(self).wf(),
            final(self)@ == old(self)@.with_persistent(),
            forall|v: T| #[trigger] final(self).hears(v) <==> call_ensures(action, (v,), ()),
    {
        self.check_empty();
        self.subscriber.install(Box::new(Listener::new(action))).expect(
            "Event already has a subscriber",
        )
    }

    /// Installs, on an event with no consumer, a persistent callback that
    /// is bound to an object it does not own: on each trigger `resolve` is
    /// asked for the object, and `action` is called with it and the value
    /// unless the object is gone.
    pub fn set<O, R, F>(&mut self, resolve: R, action: F) where
        O: 'static,
        R: FnMut() -> Option<O> + Send + 'static,
        F: FnMut(O, T) + Send + 'static,

        requires
            old(self).wf(),
            old(self)@.vacant(),
            call_requires(resolve, ()),
            forall|object: O, v: T| call_requires(action, (object, v)),
        ensures
            final(self).wf(),
            final(self)@ == old(self)@.with_persistent(),
            forall|v: T| #[trigger]
                final(self).hears(v) <==> resolved_or_skipped(resolve, action, v),
    {
        self.check_empty();
        self.subscriber.install(Box::new(Bound::new(resolve, action))).expect(
            "Event already has a subscriber",
        )
    }

    /// Installs a one-shot callback that takes the value, on an event with
    /// no consumer.
    pub fn once<F: FnOnce(T) + Send + 'static>(&mut self, action: F)
        requires
            old(self).wf(),
            old(self)@.vacant(),
            forall|v: T| call_requires(action, (v,)),
        ensures
            final(self).wf(),
            final(self)@.once.callback matches Some(fired) && final(self)@ == old(
                self,
            )@.with_callback(fired) && forall|v: T| #[trigger]
                fired(v) <==> call_ensures(action, (v,), ()),
            forall|v: T| #[trigger] final(self).hears(v) == old(self).hears(v),
    {
        self.check_empty();
        self.once.val(action)
    }

    /// Opens a channel, installs its sending half as the one-shot consumer
    /// of an event with no consumer, and returns the receiving half.
    pub fn once_async(&mut self) -> (receiver: Receiver<T>)
        requires
            old(self).wf(),
            old(self)@.vacant(),
        ensures
            final(self).wf(),
            final(self)@ == old(self)@.with_channel(),
            forall|v: T| #[trigger] final(self).hears(v) == old(self).hears(v),
    {
        self.check_empty();
        self.once.receiver()
    }

    /// Hands `value` to the one consumer that is installed: the persistent
    /// callback, else the one-shot callback, else the one-shot channel.
    pub fn trigger(&mut self, value: T) -> (out: Dispatch)
        requires
            old(self).wf(),
        ensures
            final(self).wf(),
            final(self)@ == old(self)@.trigger(value),
            out.route() == old(self)@.route(),
            old(self)@.route() == Route::Persistent ==> final(self).hears(value),
            old(self)@.route() == Route::Callback ==> (old(self)@.once.callback->0)(value),
            forall|v: T| #[trigger] final(self).hears(v) == old(self).hears(v),
    {
        match self.subscriber.peek_mut() {
            Some(subscriber) => {
                subscriber.call(value);
                Dispatch::Persistent
            },
            None => self.once.trigger(value),
        }
    }

    /// Removes whatever consumer is installed.
    pub fn remove_subscribers(&mut self)
        ensures
            final(self).wf(),
            final(self)@ == EventModel::<T>::empty(),
            forall|v: T| !#[trigger] final(self).hears(v),
    {
        self.subscriber.clear();
        self.once.remove_subscribers();
    }
}

impl<T: 'static> Default for Event<T> {
    /// An event with no subscriber.
    fn default() -> (event: Self)
        ensures
            event.wf(),
            event@ == EventModel::<T>::empty(),
            forall|v: T| !#[trigger] event.hears(v),
    {
        Event::const_default()
    }
}

} // verus!
