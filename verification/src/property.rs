//! A stored value that announces each change on an event.

use vstd::prelude::*;
use vstd::std_specs::convert::IntoSpec;
use crate::event::{Event, EventModel};
use crate::dispatch::{Dispatch, Route};

verus! {

/// The state of a property as its contracts see it.
#[verifier::reject_recursive_types(T)]
pub struct PropertyModel<T> {
    /// The stored value.
    pub value: T,
    /// The state of the event that announces changes.
    pub on_set: EventModel<T>,
}

/// A value together with the event that is triggered when it is set.
#[verifier::reject_recursive_types(T)]
pub struct Property<T: Send> {
    data: T,
    /// Triggered with a copy of the new value after each `set`.
    pub on_set: Event<T>,
}

impl<T: Send> View for Property<T> {
    type V = PropertyModel<T>;

    /// The stored value and the view of the event.
    closed spec fn view(&self) -> PropertyModel<T> {
        PropertyModel { value: self.data, on_set: self.on_set@ }
    }
}

impl<T: 'static + Send> Property<T> {
    /// Whether the consumer installed on the event, if any, is ready to be
    /// called.
    pub closed spec fn ready(&self) -> bool {
        self.on_set.ready()
    }

    /// The event that announces changes is well formed.
    pub open spec fn wf(&self) -> bool {
        self@.on_set.wf() && self.ready()
    }

    /// What holds of `value` once the persistent callback on the event has
    /// returned from a call with it.
    pub closed spec fn hears(&self, value: T) -> bool {
        self.on_set.hears(value)
    }

    /// The event that announces changes.
    pub fn event(&self) -> (event: &Event<T>)
        ensures
            event@ == self@.on_set,
            self.wf() ==> event.wf(),
            forall|v: T| #[trigger] event.hears(v) == self.hears(v),
    {
        &self.on_set
    }

    /// The event that announces changes, to install or remove a subscriber
    /// on it. The stored value stays as it is.
    pub fn event_mut(&mut self) -> (event: &mut Event<T>)
        requires
            old(self).wf(),
        ensures
            event.wf(),
            event@ == old(self)@.on_set,
            forall|v: T| #[trigger] event.hears(v) == old(self).hears(v),
            final(self).wf() == final(event).wf(),
            final(self)@ == (PropertyModel { value: old(self)@.value, on_set: final(event)@ }),
            forall|v: T| #[trigger] final(self).hears(v) == final(event).hears(v),
    {
        &mut self.on_set
    }
}

impl<T: 'static + Send + Clone> Property<T> {
    /// A property that holds `data` and has no subscriber.
    pub fn new(data: T) -> (property: Self)
        ensures
            property.wf(),
            property@ == (PropertyModel { value: data, on_set: EventModel::empty() }),
            forall|v: T| !#[trigger] property.hears(v),
    {
        Property { data, on_set: Event::const_default() }
    }

    /// What `store` and `set` do to the event: it is triggered with `copy`,
    /// a clone of the value now stored.
    pub open spec fn announced(&self, before: &Self, copy: T) -> bool {
        &&& cloned(self@.value, copy)
        &&& self@.on_set == before@.on_set.trigger(copy)
        &&& before@.on_set.route() == Route::Persistent ==> self.hears(copy)
        &&& before@.on_set.route() == Route::Callback ==> (before@.on_set.once.callback->0)(copy)
    }

    /// Stores `value`, then triggers `on_set` with a clone of it.
    pub fn store(&mut self, value: T) -> (out: Dispatch)
        requires
            old(self).wf(),
        ensures
            final(self).wf(),
            final(self)@.value == value,
            out.route() == old(self)@.on_set.route(),
            exists|copy: T| #[trigger] final(self).announced(old(self), copy),
            forall|v: T| #[trigger] final(self).hears(v) == old(self).hears(v),
    {
        self.data = value;
        let copy = self.data.clone();
        let out = self.on_set.trigger(copy);
        assert(self.announced(old(self), copy));
        out
    }

    /// Stores what `value` converts into, then triggers `on_set` with a
    /// clone of what is stored.
    pub fn set<V: Into<T>>(&mut self, value: V) -> (out: Dispatch)
        requires
            old(self).wf(),
        ensures
            final(self).wf(),
            call_ensures(V::into, (value,), final(self)@.value),
            V::obeys_into_spec() ==> final(self)@.value == value.into_spec(),
            out.route() == old(self)@.on_set.route(),
            exists|copy: T| #[trigger] final(self).announced(old(self), copy),
            forall|v: T| #[trigger] final(self).hears(v) == old(self).hears(v),
    {
        self.store(value.into())
    }
}

impl<T: Send> core::ops::Deref for Property<T> {
    type Target = T;

    /// The stored value.
    fn deref(&self) -> (data: &T)
        ensures
            *data == self@.value,
    {
        &self.data
    }
}

impl<T: 'static + Send + Default> Default for Property<T> {
    /// A property that holds the default of `T` and has no subscriber.
    fn default() -> (property: Self)
        ensures
            property.wf(),
            property@.on_set == EventModel::<T>::empty(),
            call_ensures(T::default, (), property@.value),
            forall|v: T| !#[trigger] property.hears(v),
    {
        Property { data: T::default(), on_set: Event::const_default() }
    }
}

} // verus!
