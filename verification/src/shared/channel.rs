use vstd::prelude::*;
use tokio::sync::mpsc::error::{TryRecvError, TrySendError};
use tokio::sync::mpsc::{Receiver, Sender};

verus! {

/// `tokio::sync::mpsc::Receiver`: the receiving end of a bounded channel.
/// What it holds changes as the senders send, so nothing is said of it.
#[verifier::external_type_specification]
#[verifier::external_body]
#[verifier::reject_recursive_types(T)]
pub struct ExReceiver<T>(Receiver<T>);

/// `tokio::sync::mpsc::Sender`: a sending end of a bounded channel.
#[verifier::external_type_specification]
#[verifier::external_body]
#[verifier::reject_recursive_types(T)]
pub struct ExSender<T>(Sender<T>);

/// `tokio::sync::mpsc::error::TryRecvError`: the channel is empty, or empty
/// and without senders.
#[verifier::external_type_specification]
pub struct ExTryRecvError(TryRecvError);

/// `tokio::sync::mpsc::error::TrySendError`: the channel is full, or its
/// receiver is gone; either way the message comes back.
#[verifier::external_type_specification]
#[verifier::reject_recursive_types(T)]
pub struct ExTrySendError<T>(TrySendError<T>);

/// The largest capacity that a bounded channel can be made with: the most
/// permits that the channel's semaphore holds.
pub const MAX_CHANNEL_CAPACITY: usize = usize::MAX / 8;

/// `tokio::sync::mpsc::channel` makes a bounded channel. It panics on a
/// capacity of zero or above the semaphore's limit, so both are left out.
pub assume_specification<T>[ tokio::sync::mpsc::channel::<T> ](buffer: usize) -> (ends: (
    Sender<T>,
    Receiver<T>,
))
    requires
        0 < buffer <= MAX_CHANNEL_CAPACITY,
;

/// `Receiver::try_recv` takes the next message if one is there, without
/// waiting. What it finds depends on what the senders have done so far.
pub assume_specification<T>[ Receiver::<T>::try_recv ](rx: &mut Receiver<T>) -> (r: Result<
    T,
    TryRecvError,
>)
;

/// `Sender::try_send` hands a message to the channel without waiting. Whether
/// there is room depends on what the receiver has taken so far.
pub assume_specification<T>[ Sender::<T>::try_send ](tx: &Sender<T>, message: T) -> (r: Result<
    (),
    TrySendError<T>,
>)
;

} // verus!
