//! The parts of `async_channel` that the pool relies on.
//!
//! The channel's queue is shared by every clone of its two ends and may be
//! changed by other tasks at any moment, so none of these calls promises what
//! it will find there: each contract says only what holds of every outcome.
use vstd::prelude::*;
use async_channel::{Receiver, Sender, TryRecvError, TrySendError};

verus! {

/// The sending end of an `async_channel` channel.
#[verifier::external_type_specification]
#[verifier::external_body]
#[verifier::reject_recursive_types(T)]
pub struct ExSender<T>(Sender<T>);

/// The receiving end of an `async_channel` channel.
#[verifier::external_type_specification]
#[verifier::external_body]
#[verifier::reject_recursive_types(T)]
pub struct ExReceiver<T>(Receiver<T>);

/// The error of `Sender::try_send`; it carries the message back.
#[verifier::external_type_specification]
#[verifier::external_body]
#[verifier::reject_recursive_types(T)]
pub struct ExTrySendError<T>(TrySendError<T>);

/// The error of `Receiver::try_recv` (empty, or closed).
#[verifier::external_type_specification]
#[verifier::external_body]
pub struct ExTryRecvError(TryRecvError);

/// Relies on `async_channel::unbounded`: makes a fresh channel without a
/// capacity bound and returns its two ends.
pub assume_specification<T>[ async_channel::unbounded::<T> ]() -> (Sender<T>, Receiver<T>);

/// Relies on `Sender::try_send`: pushes the message without waiting, or
/// hands it back inside the error when the channel is full or closed.
pub assume_specification<T>[ Sender::<T>::try_send ](s: &Sender<T>, msg: T) -> Result<(), TrySendError<T>>;

/// Relies on `Receiver::try_recv`: pops a message without waiting, or
/// reports that the channel is empty or closed.
pub assume_specification<T>[ Receiver::<T>::try_recv ](r: &Receiver<T>) -> Result<T, TryRecvError>;

/// Relies on `Receiver::len`: the number of messages queued at the moment
/// of the call.
pub assume_specification<T>[ Receiver::<T>::len ](r: &Receiver<T>) -> usize;

/// Relies on `Receiver::is_empty`: whether the queue held no message at the
/// moment of the call.
pub assume_specification<T>[ Receiver::<T>::is_empty ](r: &Receiver<T>) -> bool;

/// Relies on `Sender`'s `Clone`: another sending end of the same channel; the
/// clone holds the same pointer to the shared channel state and nothing else.
pub assume_specification<T>[ <Sender<T> as Clone>::clone ](s: &Sender<T>) -> (r: Sender<T>)
    ensures
        r == *s,
;

/// Relies on `Receiver`'s `Clone`: another receiving end of the same channel.
pub assume_specification<T>[ <Receiver<T> as Clone>::clone ](r: &Receiver<T>) -> Receiver<T>;

} // verus!
