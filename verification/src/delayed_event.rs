//! An event that delivers after a quiet period.
//!
//! A trigger on a delayed event with a non-zero delay delivers nothing by
//! itself: it records a fresh stamp as the latest outstanding one and hands
//! out a [`Ticket`]. Whoever drives the event waits for the ticket's delay
//! and then runs its deferred check with [`DelayedEvent::fire`]. Only the
//! check whose stamp is still the latest outstanding one delivers, so a burst
//! of triggers ends in one delivery, of the last value.

use vstd::prelude::*;
use crate::slot::Slot;
use crate::subscriber::{Listener, Signal, Subscriber};

verus! {

/// What a ticket stands for: the stamp and the value of the trigger that
/// issued it, and the delay that was configured at that moment.
pub struct TicketModel<T> {
    pub stamp: nat,
    pub delay: u32,
    pub value: T,
}

/// The deferred check of one trigger.
pub struct Ticket<T> {
    stamp: u64,
    delay: u32,
    value: T,
}

impl<T> View for Ticket<T> {
    type V = TicketModel<T>;

    closed spec fn view(&self) -> TicketModel<T> {
        TicketModel { stamp: self.stamp as nat, delay: self.delay, value: self.value }
    }
}

impl<T> Ticket<T> {
    /// The milliseconds to wait before the check is run.
    pub fn delay(&self) -> (delay: u32)
        ensures
            delay == self@.delay,
    {
        self.delay
    }

    /// The stamp of the trigger that issued the ticket.
    pub fn stamp(&self) -> (stamp: u64)
        ensures
            stamp == self@.stamp,
    {
        self.stamp
    }
}

/// What a trigger did.
pub enum Triggered<T> {
    /// No subscriber was installed; the value was released.
    Ignored,
    /// The delay was zero; the subscriber was called before the trigger
    /// returned.
    Delivered,
    /// A deferred check was scheduled; run it once its delay has elapsed.
    Scheduled(Ticket<T>),
}

/// How a deferred check ended.
#[derive(Debug, Clone, Copy, PartialEq, Eq, Structural)]
pub enum Fired {
    /// The event had been dropped.
    Dropped,
    /// No stamp was outstanding: a later check had already delivered.
    Settled,
    /// A newer trigger had arrived; its check owns the delivery.
    Superseded,
    /// The stamp was the latest; the subscriber was called with the value.
    Delivered,
    /// The stamp was the latest, but no subscriber was installed; the value
    /// was released.
    Unheard,
}

/// The state of a delayed event as its contracts see it.
pub struct DelayedModel<T> {
    /// The values handed to the installed subscriber since it was installed.
    pub subscriber: Option<Seq<T>>,
    /// The quiet period in milliseconds; zero delivers at once.
    pub delay: u32,
    /// The latest stamp whose delivery is outstanding.
    pub pending: Option<nat>,
    /// The number of stamps issued so far, which is the next stamp.
    pub issued: nat,
    /// Whether the event was dropped.
    pub dropped: bool,
}

impl<T> DelayedModel<T> {
    /// A new event: no subscriber, no delay, nothing outstanding.
    pub open spec fn idle() -> Self {
        DelayedModel { subscriber: None, delay: 0, pending: None, issued: 0, dropped: false }
    }

    /// The outstanding stamp, if any, is the one issued last.
    pub open spec fn wf(self) -> bool {
        self.pending matches Some(stamp) ==> stamp + 1 == self.issued
    }

    /// Whether a trigger delivers before it returns.
    pub open spec fn immediate(self) -> bool {
        self.subscriber is Some && self.delay == 0
    }

    /// Whether a trigger schedules a deferred check.
    pub open spec fn defers(self) -> bool {
        self.subscriber is Some && self.delay != 0
    }

    /// The subscriber's record with `value` added, where one is installed.
    pub open spec fn heard(self, value: T) -> Option<Seq<T>> {
        match self.subscriber {
            Some(log) => Some(log.push(value)),
            None => None,
        }
    }

    /// The state after a callback was installed: nothing is on its record
    /// yet.
    pub open spec fn with_subscriber(self) -> Self {
        DelayedModel { subscriber: Some(Seq::empty()), ..self }
    }

    /// The state after a trigger of `value`.
    pub open spec fn trigger(self, value: T) -> Self {
        if self.immediate() {
            DelayedModel { subscriber: self.heard(value), ..self }
        } else if self.defers() {
            DelayedModel { pending: Some(self.issued), issued: self.issued + 1, ..self }
        } else {
            self
        }
    }

    /// The ticket that a trigger of `value` hands out when it defers.
    pub open spec fn ticket(self, value: T) -> TicketModel<T> {
        TicketModel { stamp: self.issued, delay: self.delay, value }
    }

    /// How the deferred check of the trigger stamped `stamp` ends.
    pub open spec fn outcome(self, stamp: nat) -> Fired {
        if self.dropped {
            Fired::Dropped
        } else if self.pending is None {
            Fired::Settled
        } else if self.pending != Some(stamp) {
            Fired::Superseded
        } else if self.subscriber is Some {
            Fired::Delivered
        } else {
            Fired::Unheard
        }
    }

    /// Whether the deferred check of the trigger stamped `stamp` is the one
    /// that owns the delivery.
    pub open spec fn owns(self, stamp: nat) -> bool {
        !self.dropped && self.pending == Some(stamp)
    }

    /// The state after the deferred check of `ticket`.
    pub open spec fn fire(self, ticket: TicketModel<T>) -> Self {
        if self.owns(ticket.stamp) {
            DelayedModel { subscriber: self.heard(ticket.value), pending: None, ..self }
        } else {
            self
        }
    }
}

impl<T> DelayedModel<T> {
    /// The state after a trigger of each of `values` in turn, with no
    /// deferred check in between.
    pub open spec fn burst(self, values: Seq<T>) -> Self
        decreases values.len(),
    {
        if values.len() == 0 {
            self
        } else {
            self.burst(values.drop_last()).trigger(values.last())
        }
    }

    /// The ticket handed out by the trigger at position `i` of a burst of
    /// `values`.
    pub open spec fn burst_ticket(self, values: Seq<T>, i: int) -> TicketModel<T> {
        self.burst(values.take(i)).ticket(values[i])
    }

    /// Whether `ticket` was handed out by one of the triggers of a burst of
    /// `values`.
    pub open spec fn issued_in_burst(self, values: Seq<T>, ticket: TicketModel<T>) -> bool {
        exists|i: int| 0 <= i < values.len() && ticket == self.burst_ticket(values, i)
    }

    /// The state after the deferred checks of `tickets` in turn, with no
    /// trigger in between.
    pub open spec fn fire_all(self, tickets: Seq<TicketModel<T>>) -> Self
        decreases tickets.len(),
    {
        if tickets.len() == 0 {
            self
        } else {
            self.fire_all(tickets.drop_last()).fire(tickets.last())
        }
    }

    /// The state after a trigger of each of `values` in turn, where the
    /// deferred check of each trigger runs before the next trigger.
    pub open spec fn spaced(self, values: Seq<T>) -> Self
        decreases values.len(),
    {
        if values.len() == 0 {
            self
        } else {
            let before = self.spaced(values.drop_last());
            before.trigger(values.last()).fire(before.ticket(values.last()))
        }
    }
}

/// A single-subscriber event with a quiet period.
#[verifier::reject_recursive_types(T)]
pub struct DelayedEvent<T = ()> {
    subscriber: Slot<Box<dyn Subscriber<T>>>,
    delay: u32,
    pending: Option<u64>,
    issued: u64,
    dropped: bool,
}

impl<T> View for DelayedEvent<T> {
    type V = DelayedModel<T>;

    /// The record of the subscriber, the delay, the stamps and the mark.
    /// What the subscriber ensures of a value is given by
    /// [`DelayedEvent::hears`].
    closed spec fn view(&self) -> DelayedModel<T> {
        DelayedModel {
            subscriber: match self.subscriber@ {
                Some(s) => Some(s.received()),
                None => None,
            },
            delay: self.delay,
            pending: match self.pending {
                Some(stamp) => Some(stamp as nat),
                None => None,
            },
            issued: self.issued as nat,
            dropped: self.dropped,
        }
    }
}

impl<T: 'static> DelayedEvent<T> {
    /// Whether the installed subscriber, if any, is ready to be called and
    /// has returned from a call on each value on its record.
    pub closed spec fn ready(&self) -> bool {
        self.subscriber@ matches Some(s) ==> {
            &&& s.ready()
            &&& forall|i: int|
                0 <= i < s.received().len() ==> s.heard(#[trigger] s.received()[i])
        }
    }

    /// What holds of `value` once the subscriber has returned from a call
    /// with it: what the closure that was installed ensures. It holds of no
    /// value where no subscriber is installed.
    pub closed spec fn hears(&self, value: T) -> bool {
        self.subscriber@ matches Some(s) && s.heard(value)
    }

    /// Only a subscriber hears.
    pub proof fn lemma_hears_needs_subscriber(&self, value: T)
        ensures
            self.hears(value) ==> self@.subscriber is Some,
    {
    }

    /// The subscriber has returned from a call on each value on its record.
    pub proof fn lemma_record_was_heard(&self, i: int)
        requires
            self.wf(),
            self@.subscriber is Some,
            0 <= i < self@.subscriber->0.len(),
        ensures
            self.hears(self@.subscriber->0[i]),
    {
    }

    /// The outstanding stamp is the one issued last, and the subscriber is
    /// ready.
    pub open spec fn wf(&self) -> bool {
        self@.wf() && self.ready()
    }

    /// An event with no subscriber and no delay, as `default()` gives it.
    pub fn const_default() -> (event: Self)
        ensures
            event.wf(),
            event@ == DelayedModel::<T>::idle(),
            forall|v: T| !#[trigger] event.hears(v),
    {
        DelayedEvent { subscriber: Slot::new(), delay: 0, pending: None, issued: 0, dropped: false }
    }

    /// Sets the quiet period, in milliseconds, of the triggers to come.
    pub fn set_delay(&mut self, delay: u32)
        requires
            old(self).wf(),
        ensures
            final(self).wf(),
            final(self)@ == (DelayedModel { delay, ..old(self)@ }),
            forall|v: T| #[trigger] final(self).hears(v) == old(self).hears(v),
    {
        self.delay = delay;
    }

    /// The event with its quiet period set to `delay` milliseconds.
    pub fn with_delay(self, delay: u32) -> (event: Self)
        requires
            self.wf(),
        ensures
            event.wf(),
            event@ == (DelayedModel { delay, ..self@ }),
            forall|v: T| #[trigger] event.hears(v) == self.hears(v),
    {
        let mut event = self;
        event.delay = delay;
        event
    }

    /// Whether a trigger could not be given a stamp.
    pub fn exhausted(&self) -> (exhausted: bool)
        ensures
            exhausted == (self@.issued >= u64::MAX),
    {
        self.issued == u64::MAX
    }

    /// Whether a subscriber is installed.
    pub fn has_subscriber(&self) -> (installed: bool)
        ensures
            installed == (self@.subscriber is Some),
    {
        self.subscriber.is_set()
    }

    /// Installs a callback that takes each delivered value, on an event
    /// with no subscriber. A caller that was not verified and calls this on
    /// an occupied event is stopped.
    pub fn val<F: FnMut(T) + Send + 'static>(&mut self, action: F)
        requires
            old(self).wf(),
            old(self)@.subscriber is None,
            forall|v: T| call_requires(action, (v,)),
        ensures
            final(self).wf(),
            final(self)@ == old(self)@.with_subscriber(),
            forall|v: T| #[trigger] final(self).hears(v) <==> call_ensures(action, (v,), ()),
    {
        self.subscriber.install(Box::new(Listener::new(action))).expect(
            "Event already has a subscriber",
        )
    }

    /// Installs a callback that is told of each delivery and takes no
    /// value, on an event with no subscriber. A caller that was not
    /// verified and calls this on an occupied event is stopped.
    pub fn sub<F: FnMut() + Send + 'static>(&mut self, action: F)
        requires
            old(self).wf(),
            old(self)@.subscriber is None,
            call_requires(action, ()),
        ensures
            final(self).wf(),
            final(self)@ == old(self)@.with_subscriber(),
            forall|v: T| #[trigger] final(self).hears(v) <==> call_ensures(action, (), ()),
    {
        self.subscriber.install(Box::new(Signal::new(action))).expect(
            "Event already has a subscriber",
        )
    }

    /// Hands `value` to a deferred check or, with no delay, to the
    /// subscriber.
    pub fn trigger(&mut self, value: T) -> (out: Triggered<T>)
        requires
            old(self).wf(),
            old(self)@.defers() ==> old(self)@.issued < u64::MAX,
        ensures
            final(self).wf(),
            final(self)@ == old(self)@.trigger(value),
            old(self)@.subscriber is None ==> out is Ignored,
            old(self)@.immediate() ==> out is Delivered,
            old(self)@.defers() ==> (out matches Triggered::Scheduled(ticket) && ticket@ == old(
                self,
            )@.ticket(value)),
            old(self)@.immediate() ==> final(self).hears(value),
            forall|v: T| #[trigger] final(self).hears(v) == old(self).hears(v),
    {
        let delay = self.delay;
        match self.subscriber.peek_mut() {
            None => Triggered::Ignored,
            Some(subscriber) => {
                if delay == 0 {
                    subscriber.call(value);
                    Triggered::Delivered
                } else {
                    let stamp = self.issued;
                    self.pending = Some(stamp);
                    self.issued = stamp + 1;
                    Triggered::Scheduled(Ticket { stamp, delay, value })
                }
            },
        }
    }

    /// Runs the deferred check of `ticket`: delivers its value if its stamp
    /// is still the latest outstanding one and the event was not dropped.
    pub fn fire(&mut self, ticket: Ticket<T>) -> (out: Fired)
        requires
            old(self).wf(),
        ensures
            final(self).wf(),
            final(self)@ == old(self)@.fire(ticket@),
            out == old(self)@.outcome(ticket@.stamp),
            out == Fired::Delivered ==> final(self).hears(ticket@.value),
            forall|v: T| #[trigger] final(self).hears(v) == old(self).hears(v),
    {
        if self.dropped {
            return Fired::Dropped;
        }
        match self.pending {
            None => Fired::Settled,
            Some(latest) => {
                if latest != ticket.stamp {
                    Fired::Superseded
                } else {
                    self.pending = None;
                    match self.subscriber.peek_mut() {
                        Some(subscriber) => {
                            subscriber.call(ticket.value);
                            Fired::Delivered
                        },
                        None => Fired::Unheard,
                    }
                }
            },
        }
    }

    /// Removes the subscriber. Checks that are still to run find none.
    pub fn remove_subscribers(&mut self)
        requires
            old(self).wf(),
        ensures
            final(self).wf(),
            final(self)@ == (DelayedModel { subscriber: None, ..old(self)@ }),
            forall|v: T| !#[trigger] final(self).hears(v),
    {
        self.subscriber.clear();
    }

    /// Marks the event as dropped: no deferred check delivers from now on.
    pub fn mark_dropped(&mut self)
        requires
            old(self).wf(),
        ensures
            final(self).wf(),
            final(self)@ == (DelayedModel { dropped: true, ..old(self)@ }),
            forall|v: T| #[trigger] final(self).hears(v) == old(self).hears(v),
    {
        self.dropped = true;
    }
}

impl<T: 'static> Default for DelayedEvent<T> {
    /// An event with no subscriber.
    fn default() -> (event: Self)
        ensures
            event.wf(),
            event@ == DelayedModel::<T>::idle(),
            forall|v: T| !#[trigger] event.hears(v),
    {
        DelayedEvent::const_default()
    }
}

} // verus!
