//! The consumers an event delivers to, and the closures that serve as one.
//!
//! A consumer is a capability with one operation, "call with a value". A
//! persistent consumer is called on every trigger and keeps a record of the
//! values it was handed; a one-shot consumer is used up by its one call.

use vstd::prelude::*;

verus! {

/// A consumer that is called on every trigger until it is removed.
pub trait Subscriber<T>: Send {
    /// Whether the consumer may be handed any value whatever. An event holds
    /// ready consumers only.
    spec fn ready(&self) -> bool;

    /// The values the consumer has been called with, oldest first.
    spec fn received(&self) -> Seq<T>;

    /// What holds of `value` once the consumer has returned from a call
    /// with it. For a consumer made of a closure this is what the closure
    /// ensures.
    spec fn heard(&self, value: T) -> bool;

    /// Hands `value` to the consumer.
    fn call(&mut self, value: T)
        requires
            old(self).ready(),
        ensures
            final(self).ready(),
            final(self).received() == old(self).received().push(value),
            final(self).heard(value),
            forall|v: T| #[trigger] final(self).heard(v) == old(self).heard(v),
    ;
}

/// A consumer that is used up by the one value it is called with.
pub trait OnceSubscriber<T>: Send {
    /// Whether the consumer may be handed any value whatever.
    spec fn ready(&self) -> bool;

    /// What holds once the consumer has been called with `value`.
    spec fn fired(&self, value: T) -> bool;

    /// Hands `value` to the consumer and releases it.
    fn call_once(self: Box<Self>, value: T)
        requires
            self.ready(),
        ensures
            self.fired(value),
    ;
}

/// What a call of a bound consumer with `value` leaves behind: `resolve`
/// has returned from a call, and where it found the object, `action` has
/// returned from a call on the object and `value`.
pub open spec fn resolved_or_skipped<T, O, R: FnMut() -> Option<O>, F: FnMut(O, T)>(
    resolve: R,
    action: F,
    value: T,
) -> bool {
    exists|found: Option<O>| #[trigger]
        call_ensures(resolve, (), found) && (found matches Some(object) ==> call_ensures(
            action,
            (object, value),
            (),
        ))
}

/// A persistent consumer made of a closure that takes each value.
pub struct Listener<T, F> {
    action: F,
    log: Ghost<Seq<T>>,
}

impl<T, F: FnMut(T) + Send> Listener<T, F> {
    /// The closure.
    pub closed spec fn action(&self) -> F {
        self.action
    }

    /// Wraps a closure that accepts every value.
    pub fn new(action: F) -> (listener: Self)
        requires
            forall|v: T| call_requires(action, (v,)),
        ensures
            listener.ready(),
            listener.action() == action,
            listener.received() == Seq::<T>::empty(),
    {
        Listener { action, log: Ghost(Seq::empty()) }
    }
}

impl<T, F: FnMut(T) + Send> Subscriber<T> for Listener<T, F> {
    /// The closure accepts every value, and it has returned from a call on
    /// each value on record.
    open spec fn ready(&self) -> bool {
        &&& forall|v: T| call_requires(self.action(), (v,))
        &&& forall|i: int|
            0 <= i < self.received().len() ==> self.heard(#[trigger] self.received()[i])
    }

    closed spec fn received(&self) -> Seq<T> {
        self.log@
    }

    /// The closure has returned from a call on `value`.
    open spec fn heard(&self, value: T) -> bool {
        call_ensures(self.action(), (value,), ())
    }

    /// Calls the closure with `value`.
    fn call(&mut self, value: T)
        ensures
            final(self).action() == old(self).action(),
    {
        assert(call_requires(self.action(), (value,)));
        (self.action)(value);
        self.log = Ghost(self.log@.push(value));
        assert forall|i: int| 0 <= i < self.received().len() implies self.heard(
            #[trigger] self.received()[i],
        ) by {
            if i < old(self).received().len() {
                assert(self.received()[i] == old(self).received()[i]);
            }
        }
    }
}

/// A persistent consumer made of a closure that takes no value: it is told
/// that a trigger happened, and the value is released.
pub struct Signal<T, F> {
    action: F,
    log: Ghost<Seq<T>>,
}

impl<T, F: FnMut() + Send> Signal<T, F> {
    /// The closure.
    pub closed spec fn action(&self) -> F {
        self.action
    }

    /// Wraps a closure that may always be called.
    pub fn new(action: F) -> (signal: Self)
        requires
            call_requires(action, ()),
        ensures
            signal.ready(),
            signal.action() == action,
            signal.received() == Seq::<T>::empty(),
    {
        Signal { action, log: Ghost(Seq::empty()) }
    }
}

impl<T, F: FnMut() + Send> Subscriber<T> for Signal<T, F> {
    /// The closure may be called, and it has returned from a call if any
    /// value is on record.
    open spec fn ready(&self) -> bool {
        &&& call_requires(self.action(), ())
        &&& self.received().len() > 0 ==> call_ensures(self.action(), (), ())
    }

    closed spec fn received(&self) -> Seq<T> {
        self.log@
    }

    /// The closure has returned from a call.
    open spec fn heard(&self, value: T) -> bool {
        call_ensures(self.action(), (), ())
    }

    /// Calls the closure and releases `value`.
    fn call(&mut self, value: T)
        ensures
            final(self).action() == old(self).action(),
    {
        (self.action)();
        self.log = Ghost(self.log@.push(value));
    }
}

/// A persistent consumer bound to an object that it does not own. At each
/// call the object is resolved anew: where it is there, the closure is called
/// with it and the value; where it is gone, the call is skipped and the
/// value is released.
pub struct Bound<T, O, R, F> {
    resolve: R,
    action: F,
    log: Ghost<Seq<T>>,
    found: Ghost<Seq<Option<O>>>,
}

impl<T, O, R: FnMut() -> Option<O> + Send, F: FnMut(O, T) + Send> Bound<T, O, R, F> {
    /// The closure that resolves the object.
    pub closed spec fn resolver(&self) -> R {
        self.resolve
    }

    /// The closure that is called with the object and the value.
    pub closed spec fn action(&self) -> F {
        self.action
    }

    /// What the resolver returned at each call, oldest first.
    pub closed spec fn found(&self) -> Seq<Option<O>> {
        self.found@
    }

    /// Binds a closure that accepts every object and value to a resolver
    /// that may always be called.
    pub fn new(resolve: R, action: F) -> (bound: Self)
        requires
            call_requires(resolve, ()),
            forall|object: O, v: T| call_requires(action, (object, v)),
        ensures
            bound.ready(),
            bound.resolver() == resolve,
            bound.action() == action,
            bound.received() == Seq::<T>::empty(),
            bound.found() == Seq::<Option<O>>::empty(),
    {
        Bound { resolve, action, log: Ghost(Seq::empty()), found: Ghost(Seq::empty()) }
    }
}

impl<T, O, R: FnMut() -> Option<O> + Send, F: FnMut(O, T) + Send> Subscriber<T> for Bound<
    T,
    O,
    R,
    F,
> {
    /// The resolver and the closure may always be called. For each value on
    /// record the resolver has returned from a call, and where it found the
    /// object the closure has returned from a call on the object and the
    /// value.
    open spec fn ready(&self) -> bool {
        &&& call_requires(self.resolver(), ())
        &&& forall|object: O, v: T| call_requires(self.action(), (object, v))
        &&& self.found().len() == self.received().len()
        &&& forall|i: int|
            0 <= i < self.found().len() ==> call_ensures(
                self.resolver(),
                (),
                #[trigger] self.found()[i],
            )
        &&& forall|i: int|
            0 <= i < self.received().len() && self.found()[i] is Some ==> call_ensures(
                self.action(),
                (self.found()[i]->0, #[trigger] self.received()[i]),
                (),
            )
    }

    closed spec fn received(&self) -> Seq<T> {
        self.log@
    }

    /// The object was resolved, and the closure has returned from a call on
    /// it and `value` unless the object was gone.
    open spec fn heard(&self, value: T) -> bool {
        resolved_or_skipped(self.resolver(), self.action(), value)
    }

    /// Resolves the object, and calls the closure with it and `value` if it
    /// is there.
    fn call(&mut self, value: T)
        ensures
            final(self).resolver() == old(self).resolver(),
            final(self).action() == old(self).action(),
            final(self).found().len() == old(self).found().len() + 1,
            final(self).found().drop_last() == old(self).found(),
            call_ensures(final(self).resolver(), (), final(self).found().last()),
            final(self).found().last() matches Some(object) ==> call_ensures(
                final(self).action(),
                (object, value),
                (),
            ),
    {
        let ghost handed = value;
        let resolved = (self.resolve)();
        let ghost found = resolved;
        match resolved {
            Some(object) => {
                assert(call_requires(self.action(), (object, value)));
                (self.action)(object, value);
            },
            None => {},
        }
        self.log = Ghost(self.log@.push(handed));
        self.found = Ghost(self.found@.push(found));
        assert(self.found().drop_last() =~= old(self).found());
        assert(self.found().last() == found);
        assert(self.resolver() == old(self).resolver());
        assert(self.action() == old(self).action());
        assert(call_ensures(self.resolver(), (), found));
        assert forall|i: int| 0 <= i < self.found().len() implies call_ensures(
            self.resolver(),
            (),
            #[trigger] self.found()[i],
        ) by {
            if i < old(self).found().len() {
                assert(self.found()[i] == old(self).found()[i]);
            }
        }
        assert forall|i: int|
            0 <= i < self.received().len() && self.found()[i] is Some implies call_ensures(
            self.action(),
            (self.found()[i]->0, #[trigger] self.received()[i]),
            (),
        ) by {
            if i < old(self).received().len() {
                assert(self.found()[i] == old(self).found()[i]);
                assert(self.received()[i] == old(self).received()[i]);
            }
        }
    }
}

/// A one-shot consumer made of a closure that takes the value.
pub struct OnceListener<F> {
    action: F,
}

impl<F> OnceListener<F> {
    /// The closure.
    pub closed spec fn action(&self) -> F {
        self.action
    }

    /// Wraps a closure.
    pub fn new(action: F) -> (listener: Self)
        ensures
            listener.action() == action,
    {
        OnceListener { action }
    }
}

impl<T, F: FnOnce(T) + Send> OnceSubscriber<T> for OnceListener<F> {
    /// The closure accepts every value.
    open spec fn ready(&self) -> bool {
        forall|v: T| call_requires(self.action(), (v,))
    }

    /// The closure has returned from a call on `value`.
    open spec fn fired(&self, value: T) -> bool {
        call_ensures(self.action(), (value,), ())
    }

    /// Calls the closure with `value`.
    fn call_once(self: Box<Self>, value: T) {
        let listener = *self;
        (listener.action)(value);
    }
}

/// A one-shot consumer made of a closure that takes no value.
pub struct OnceSignal<F> {
    action: F,
}

impl<F> OnceSignal<F> {
    /// The closure.
    pub closed spec fn action(&self) -> F {
        self.action
    }

    /// Wraps a closure.
    pub fn new(action: F) -> (signal: Self)
        ensures
            signal.action() == action,
    {
        OnceSignal { action }
    }
}

impl<T, F: FnOnce() + Send> OnceSubscriber<T> for OnceSignal<F> {
    /// The closure may be called.
    open spec fn ready(&self) -> bool {
        call_requires(self.action(), ())
    }

    /// The closure has returned from its call.
    open spec fn fired(&self, value: T) -> bool {
        call_ensures(self.action(), (), ())
    }

    /// Calls the closure and releases `value`.
    fn call_once(self: Box<Self>, value: T) {
        let signal = *self;
        (signal.action)();
    }
}

} // verus!
