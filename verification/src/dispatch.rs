//! Where a trigger goes, and what it reports.

use vstd::prelude::*;
use std::sync::mpsc::SendError;

verus! {

/// The consumer a trigger goes to.
#[derive(Debug, Clone, Copy, PartialEq, Eq, Structural)]
pub enum Route {
    /// No consumer is installed.
    Nowhere,
    /// The persistent callback.
    Persistent,
    /// The one-shot callback.
    Callback,
    /// The one-shot channel.
    Channel,
}

/// What a trigger did with its value.
#[derive(Debug, Clone, Copy, PartialEq, Eq, Structural)]
pub enum Dispatch {
    /// No consumer was installed; the value was released.
    Ignored,
    /// The persistent callback was called with the value.
    Persistent,
    /// The one-shot callback was called with the value and released.
    Once,
    /// The value was sent through the one-shot channel, whose sending half
    /// was released.
    Sent,
    /// The receiver of the one-shot channel was gone; the value and the
    /// sending half were released.
    Disconnected,
}

impl Dispatch {
    /// The consumer that the value went to.
    pub open spec fn route(self) -> Route {
        match self {
            Dispatch::Ignored => Route::Nowhere,
            Dispatch::Persistent => Route::Persistent,
            Dispatch::Once => Route::Callback,
            Dispatch::Sent => Route::Channel,
            Dispatch::Disconnected => Route::Channel,
        }
    }

    /// What a trigger through the one-shot channel reports for the result
    /// of the send.
    pub fn sent<T>(result: Result<(), SendError<T>>) -> (out: Dispatch)
        ensures
            out == (if result is Ok {
                Dispatch::Sent
            } else {
                Dispatch::Disconnected
            }),
    {
        match result {
            Ok(_) => Dispatch::Sent,
            Err(_) => Dispatch::Disconnected,
        }
    }
}

} // verus!
