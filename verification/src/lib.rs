//! Typed single-subscriber events.
//!
//! An event hands each triggered value to the one consumer installed on it:
//! a persistent callback, a one-shot callback, or the sending half of a
//! one-shot channel. A delayed event coalesces a burst of triggers into one
//! deferred delivery of the latest value.
//!
//! The contracts are stated over models: the record of values that a
//! persistent callback was handed, and the stamps that a delayed event
//! issued. What holds of every event is proved of these models in [`laws`].
//! That a record is the record of the closure that was installed is stated
//! by `hears`: it holds of a value once that closure has returned from a
//! call with it.

pub mod channel;
pub mod delayed_event;
pub mod dispatch;
pub mod event;
pub mod laws;
pub mod once_event;
pub mod property;
pub mod slot;
pub mod subscriber;

pub use crate::delayed_event::{DelayedEvent, Fired, Ticket, Triggered};
pub use crate::dispatch::{Dispatch, Route};
pub use crate::event::Event;
pub use crate::once_event::OnceEvent;
pub use crate::property::Property;
pub use crate::slot::{AlreadySet, Slot};
