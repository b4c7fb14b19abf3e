//! Unbounded queue with many producers and one consumer.

use vstd::prelude::*;

verus! {

/// A send that found the consumer gone. It carries the message that was not
/// delivered, so that the caller can inspect or redeliver it.
#[derive(Debug, PartialEq, Eq)]
pub struct SendError<T>(pub T);

/// Why a poll of the queue gave no message.
#[derive(Debug, Clone, Copy, PartialEq, Eq, Structural)]
pub enum TryRecvFailure {
    /// Nothing is queued right now; a producer may still deliver.
    Empty,
    /// Every producer is gone and the queue is drained: closed for good.
    Disconnected,
}

/// What a send reports, given what the backend handed back: nothing on
/// success, else the message that could not be delivered.
pub open spec fn send_outcome<T>(returned: Result<(), T>) -> Result<(), SendError<T>> {
    match returned {
        Ok(()) => Ok(()),
        Err(msg) => Err(SendError(msg)),
    }
}

impl<T> SendError<T> {
    /// Wraps a message that a backend handed back into the error of a send.
    pub fn from_returned(returned: Result<(), T>) -> (r: Result<(), SendError<T>>)
        ensures
            r == send_outcome(returned),
    {
        match returned {
            Ok(()) => Ok(()),
            Err(msg) => Err(SendError(msg)),
        }
    }
}

/// The family of handle types of one backend's unbounded queue of `T`.
pub trait MpscUnbounded<T>: Sized {
    type Sender: MpscUnboundedSender<T, WeakSender = Self::WeakSender>;

    type Receiver: MpscUnboundedReceiver<T>;

    type WeakSender: MpscUnboundedWeakSender<T, Sender = Self::Sender>;

    /// Makes a queue and hands out its first producer and its consumer.
    fn channel() -> (ends: (Self::Sender, Self::Receiver));
}

/// An owning producer handle.
pub trait MpscUnboundedSender<T>: Sized + Clone {
    type WeakSender;

    /// Queues `msg` without suspending. A failed send hands back exactly the
    /// message it was given.
    fn send(&self, msg: T) -> (r: Result<(), SendError<T>>)
        ensures
            r matches Err(e) ==> e.0 == msg,
    ;

    /// A handle to the same queue that does not keep it open.
    fn downgrade(&self) -> (weak: Self::WeakSender);
}

/// The consumer handle.
pub trait MpscUnboundedReceiver<T>: Sized {
    /// Takes the next queued message without suspending.
    fn try_recv(&mut self) -> (r: Result<T, TryRecvFailure>);
}

/// A producer handle that does not keep the queue open.
pub trait MpscUnboundedWeakSender<T>: Sized + Clone {
    type Sender;

    /// An owning producer, while the queue still has one.
    fn upgrade(&self) -> (strong: Option<Self::Sender>);
}

} // verus!
