//! An event whose subscriber is used up by the first trigger.

use vstd::prelude::*;
use std::sync::mpsc::{channel, Receiver, Sender};
use crate::dispatch::{Dispatch, Route};
use crate::slot::Slot;
use crate::subscriber::{OnceListener, OnceSignal, OnceSubscriber};

verus! {

/// The state of a one-shot event as its contracts see it.
#[verifier::reject_recursive_types(T)]
pub struct OnceModel<T> {
    /// The armed one-shot callback, as what holds of a value once the
    /// callback has returned from its call on it.
    pub callback: Option<spec_fn(T) -> bool>,
    /// Whether the sending half of a one-shot channel is armed.
    pub channel: bool,
}

impl<T> OnceModel<T> {
    /// No consumer of either kind.
    pub open spec fn empty() -> Self {
        OnceModel { callback: None, channel: false }
    }

    /// Whether no consumer is installed.
    pub open spec fn vacant(self) -> bool {
        self.callback is None && !self.channel
    }

    /// At most one consumer is installed.
    pub open spec fn wf(self) -> bool {
        self.callback is None || !self.channel
    }

    /// The consumer that the next trigger goes to: the callback before the
    /// channel.
    pub open spec fn route(self) -> Route {
        if self.callback is Some {
            Route::Callback
        } else if self.channel {
            Route::Channel
        } else {
            Route::Nowhere
        }
    }

    /// The state after a one-shot callback was installed.
    pub open spec fn with_callback(self, fired: spec_fn(T) -> bool) -> Self {
        OnceModel { callback: Some(fired), ..self }
    }

    /// The state after the sending half of a channel was installed.
    pub open spec fn with_channel(self) -> Self {
        OnceModel { channel: true, ..self }
    }

    /// The state after a trigger: the consumer it went to is gone.
    pub open spec fn trigger(self) -> Self {
        if self.callback is Some {
            OnceModel { callback: None, ..self }
        } else {
            OnceModel { channel: false, ..self }
        }
    }
}

/// A single-subscriber event that delivers one value.
#[verifier::reject_recursive_types(T)]
pub struct OnceEvent<T = ()> {
    once_subscriber: Slot<Box<dyn OnceSubscriber<T>>>,
    once_sender: Slot<Sender<T>>,
}

impl<T> View for OnceEvent<T> {
    type V = OnceModel<T>;

    /// What the armed callback ensures, and whether a sender is armed.
    closed spec fn view(&self) -> OnceModel<T> {
        OnceModel {
            callback: match self.once_subscriber@ {
                Some(s) => Some(|v: T| s.fired(v)),
                None => None,
            },
            channel: self.once_sender@ is Some,
        }
    }
}

impl<T: 'static> OnceEvent<T> {
    /// Whether the installed callback, if any, is ready to be called.
    pub closed spec fn ready(&self) -> bool {
        self.once_subscriber@ matches Some(s) ==> s.ready()
    }

    /// At most one consumer is installed, and it is ready.
    pub open spec fn wf(&self) -> bool {
        self@.wf() && self.ready()
    }

    /// An event with no consumer, as `default()` gives it.
    pub fn const_default() -> (event: Self)
        ensures
            event.wf(),
            event@ == OnceModel::<T>::empty(),
    {
        OnceEvent { once_subscriber: Slot::new(), once_sender: Slot::new() }
    }

    /// The consumer that the next trigger goes to.
    pub fn route(&self) -> (route: Route)
        ensures
            route == self@.route(),
    {
        if self.once_subscriber.is_set() {
            Route::Callback
        } else if self.once_sender.is_set() {
            Route::Channel
        } else {
            Route::Nowhere
        }
    }

    /// Passes on an event with no consumer. It is the check that every
    /// installation begins with: a caller that was not verified and calls
    /// it on an occupied event is stopped with a message that names the
    /// consumer in the way.
    pub fn check_empty(&self)
        requires
            self@.vacant(),
    {
        self.once_sender.expect_empty("Event already has once_sender");
        self.once_subscriber.expect_empty("Event already has once_subscriber");
    }

    /// Installs a one-shot callback that takes no value, on an event with
    /// no consumer.
    pub fn sub<F: FnOnce() + Send + 'static>(&mut self, action: F)
        requires
            old(self).wf(),
            old(self)@.vacant(),
            call_requires(action, ()),
        ensures
            final(self).wf(),
            final(self)@.callback matches Some(fired) && final(self)@ == old(
                self,
            )@.with_callback(fired) && forall|v: T| #[trigger]
                fired(v) <==> call_ensures(action, (), ()),
    {
        self.check_empty();
        self.once_subscriber.install(Box::new(OnceSignal::new(action))).expect(
            "Event already has once_subscriber",
        )
    }

    /// Installs a one-shot callback that takes the value, on an event with
    /// no consumer.
    pub fn val<F: FnOnce(T) + Send + 'static>(&mut self, action: F)
        requires
            old(self).wf(),
            old(self)@.vacant(),
            forall|v: T| call_requires(action, (v,)),
        ensures
            final(self).wf(),
            final(self)@.callback matches Some(fired) && final(self)@ == old(
                self,
            )@.with_callback(fired) && forall|v: T| #[trigger]
                fired(v) <==> call_ensures(action, (v,), ()),
    {
        self.check_empty();
        self.once_subscriber.install(Box::new(OnceListener::new(action))).expect(
            "Event already has once_subscriber",
        )
    }

    /// Opens a channel, installs its sending half on an event with no
    /// consumer and returns the receiving half.
    pub fn receiver(&mut self) -> (receiver: Receiver<T>)
        requires
            old(self).wf(),
            old(self)@.vacant(),
        ensures
            final(self).wf(),
            final(self)@ == old(self)@.with_channel(),
    {
        self.check_empty();
        let (sender, receiver) = channel();
        self.once_sender.install(sender).expect("Event already has once_sender");
        receiver
    }

    /// Hands `value` to the installed consumer, which is then gone: to the
    /// callback if one is installed, else into the channel.
    pub fn trigger(&mut self, value: T) -> (out: Dispatch)
        requires
            old(self).wf(),
        ensures
            final(self).wf(),
            final(self)@ == old(self)@.trigger(),
            out.route() == old(self)@.route(),
            old(self)@.callback matches Some(fired) ==> fired(value),
    {
        match self.once_subscriber.take() {
            Some(subscriber) => {
                subscriber.call_once(value);
                Dispatch::Once
            },
            None => match self.once_sender.take() {
                Some(sender) => Dispatch::sent(sender.send(value)),
                None => Dispatch::Ignored,
            },
        }
    }

    /// Removes whatever consumer is installed.
    pub fn remove_subscribers(&mut self)
        ensures
            final(self).wf(),
            final(self)@ == OnceModel::<T>::empty(),
    {
        self.once_subscriber.clear();
        self.once_sender.clear();
    }
}

impl<T: 'static> Default for OnceEvent<T> {
    /// An event with no subscriber.
    fn default() -> (event: Self)
        ensures
            event.wf(),
            event@ == OnceModel::<T>::empty(),
    {
        OnceEvent::const_default()
    }
}

} // verus!
