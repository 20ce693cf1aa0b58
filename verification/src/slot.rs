//! A holder of at most one value that refuses to overwrite what it holds.

use vstd::prelude::*;

verus! {

/// The error of installing into a slot that is occupied.
#[derive(Debug, Clone, Copy, PartialEq, Eq, Structural)]
pub struct AlreadySet;

/// Holds at most one value. The view is the held value, if any.
pub struct Slot<S> {
    held: Option<S>,
}

impl<S> Slot<S> {
    /// The held value, if any.
    pub closed spec fn view(&self) -> Option<S> {
        self.held
    }

    /// An empty slot.
    pub fn new() -> (slot: Self)
        ensures
            slot@ is None,
    {
        Slot { held: None }
    }

    /// Whether the slot holds a value.
    pub fn is_set(&self) -> (set: bool)
        ensures
            set == (self@ is Some),
    {
        self.held.is_some()
    }

    /// Puts `value` into an empty slot. An occupied slot keeps what it
    /// holds and `value` is released.
    pub fn install(&mut self, value: S) -> (res: Result<(), AlreadySet>)
        ensures
            res is Ok <==> old(self)@ is None,
            res is Ok ==> final(self)@ == Some(value),
            res is Err ==> final(self)@ == old(self)@,
    {
        if self.held.is_some() {
            Err(AlreadySet)
        } else {
            self.held = Some(value);
            Ok(())
        }
    }

    /// Passes on an empty slot. A caller that was not verified and calls
    /// this on an occupied slot is stopped with `message`.
    pub fn expect_empty(&self, message: &str)
        requires
            self@ is None,
    {
        let vacancy: Result<(), AlreadySet> = if self.held.is_some() {
            Err(AlreadySet)
        } else {
            Ok(())
        };
        vacancy.expect(message)
    }

    /// Removes and returns the held value.
    pub fn take(&mut self) -> (taken: Option<S>)
        ensures
            taken == old(self)@,
            final(self)@ is None,
    {
        self.held.take()
    }

    /// Empties the slot, releasing what it held.
    pub fn clear(&mut self)
        ensures
            final(self)@ is None,
    {
        self.held = None;
    }

    /// Mutable access to the held value, which stays in the slot.
    pub fn peek_mut(&mut self) -> (held: Option<&mut S>)
        ensures
            old(self)@ is None ==> held is None && final(self)@ is None,
            old(self)@ matches Some(s) ==> held matches Some(r) && *r == s && final(self)@ == Some(
                *final(r),
            ),
    {
        self.held.as_mut()
    }
}

} // verus!
