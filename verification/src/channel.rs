//! The channel of std that carries the value of a one-shot trigger to a
//! consumer that waits for it.
//!
//! The items of this file are believed, not proved. They make the types
//! and the two functions of `std::sync::mpsc` that the events use known to
//! the verifier, and claim nothing about what the functions return.

use vstd::prelude::*;
use std::sync::mpsc::{Receiver, SendError, Sender};

verus! {

/// `std::sync::mpsc::Sender`, the sending half of a channel. Nothing inside
/// it is visible to contracts.
#[verifier::external_type_specification]
#[verifier::external_body]
#[verifier::reject_recursive_types(T)]
pub struct ExSender<T>(Sender<T>);

/// `std::sync::mpsc::Receiver`, the receiving half of a channel. Nothing
/// inside it is visible to contracts.
#[verifier::external_type_specification]
#[verifier::external_body]
#[verifier::reject_recursive_types(T)]
pub struct ExReceiver<T>(Receiver<T>);

/// `std::sync::mpsc::SendError`, the error of a send whose receiver is
/// gone. Nothing inside it is visible to contracts.
#[verifier::external_type_specification]
#[verifier::external_body]
#[verifier::reject_recursive_types(T)]
pub struct ExSendError<T>(SendError<T>);

/// `std::sync::mpsc::channel` makes a new channel and returns its sending
/// and its receiving half. It takes no input and does not fail. Nothing is
/// claimed of the two halves.
pub assume_specification<T>[ std::sync::mpsc::channel::<T> ]() -> (ends: (Sender<T>, Receiver<T>));

/// `Sender::send` hands a value to the channel without blocking, and
/// returns an error when the receiver has been released. Whether it does
/// depends on what the holder of the receiver did, so nothing is claimed of
/// the result.
pub assume_specification<T>[ Sender::<T>::send ](sender: &Sender<T>, value: T) -> (res: Result<
    (),
    SendError<T>,
>);

} // verus!
