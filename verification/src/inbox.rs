//! The queue between the producers and the panel: a channel of the standard
//! library. What this file says of it is taken on trust.

use vstd::prelude::*;
use std::sync::mpsc::{Receiver, Sender, TryRecvError};

verus! {

/// `std::sync::mpsc::Sender`, the end of a channel that messages go into.
/// Nothing is known of what it holds.
#[verifier::external_type_specification]
#[verifier::external_body]
#[verifier::reject_recursive_types(T)]
pub struct ExSender<T>(Sender<T>);

/// `std::sync::mpsc::Receiver`, the end of a channel that messages come out
/// of. Nothing is known of what it holds.
#[verifier::external_type_specification]
#[verifier::external_body]
#[verifier::reject_recursive_types(T)]
pub struct ExReceiver<T>(Receiver<T>);

/// `std::sync::mpsc::TryRecvError`, which `Receiver::try_recv` returns when
/// it has no message to give. Nothing is known of what it holds.
#[verifier::external_type_specification]
#[verifier::external_body]
pub struct ExTryRecvError(TryRecvError);

/// `std::sync::mpsc::channel` makes the two ends of a new channel. Nothing is
/// claimed of them.
pub assume_specification<T>[ std::sync::mpsc::channel::<T> ]() -> (ends: (Sender<T>, Receiver<T>));

/// `Sender::send` hands a value to the channel without waiting. Whether it
/// succeeds depends on whether the receiving end still exists, which other
/// code decides, so nothing is claimed of that. What is claimed is what the
/// standard library documents of `SendError`: where the send fails, the error
/// holds the value that was to be sent.
#[verifier::external_body]
pub(crate) fn send<T>(sender: &Sender<T>, value: T) -> (sent: Result<(), T>)
    ensures
        sent matches Err(back) ==> back == value,
{
    match sender.send(value) {
        Ok(()) => Ok(()),
        Err(failed) => Err(failed.0),
    }
}

/// `Sender::clone` makes another sending end of the same channel. Nothing is
/// claimed of it.
pub assume_specification<T>[ <Sender<T> as Clone>::clone ](sender: &Sender<T>) -> (copy: Sender<T>);

/// `Receiver::try_recv` takes the next value out of the channel if one is
/// there, without waiting. What is there depends on what the senders have
/// done: nothing is claimed of the result.
pub assume_specification<T>[ Receiver::<T>::try_recv ](receiver: &Receiver<T>) -> (received:
    Result<T, TryRecvError>);

} // verus!
