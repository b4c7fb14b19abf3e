//! Single-slot cell that broadcasts its latest value to many readers.

use vstd::prelude::*;

verus! {

/// A send that found no reader left. It carries the value that was not stored.
#[derive(Debug, PartialEq, Eq)]
pub struct SendError<T>(pub T);

/// A wait for a change that found every writer gone and no change pending.
#[derive(Debug, Clone, Copy, PartialEq, Eq, Structural)]
pub struct Closed;

/// What a send reports, given what the backend handed back: nothing on
/// success, else the value that could not be stored.
pub open spec fn send_outcome<T>(returned: Result<(), T>) -> Result<(), SendError<T>> {
    match returned {
        Ok(()) => Ok(()),
        Err(value) => Err(SendError(value)),
    }
}

impl<T> SendError<T> {
    /// Wraps a value that a backend handed back into the error of a send.
    pub fn from_returned(returned: Result<(), T>) -> (r: Result<(), SendError<T>>)
        ensures
            r == send_outcome(returned),
    {
        match returned {
            Ok(()) => Ok(()),
            Err(value) => Err(SendError(value)),
        }
    }
}

/// The family of handle types of one backend's watch cell of `T`.
pub trait Watch<T>: Sized {
    type Sender: WatchSender<T>;

    type Receiver;

    /// Makes a cell that holds `init` and hands out its writer and a reader.
    fn channel(init: T) -> (ends: (Self::Sender, Self::Receiver));
}

/// Read access to the value of a watch cell for as long as `'a`, from its
/// writer or from a reader.
pub trait WatchRead<'a, T>: Sized {
    type Ref;

    /// A read-only view of the value now in the cell. It does not mark the
    /// value as seen. Writers wait while a view is alive: drop it before
    /// sending from the same thread.
    fn borrow_watched(&'a self) -> (view: Self::Ref);
}

/// The writing handle of a watch cell.
pub trait WatchSender<T>: Sized {
    /// Replaces the value in the cell. A failed send hands back exactly the
    /// value it was given.
    fn send(&self, value: T) -> (r: Result<(), SendError<T>>)
        ensures
            r matches Err(e) ==> e.0 == value,
    ;

    /// Runs `modify` once on the value in the cell, in place, and returns what
    /// it reported: readers are told of a change only where that is `true`.
    fn send_if_modified<F>(&self, modify: F) -> (modified: bool) where F: FnOnce(&mut T) -> bool
        requires
            forall|slot: &mut T| call_requires(modify, (slot,)),
        ensures
            exists|slot: &mut T| call_ensures(modify, (slot,), modified),
    ;
}

} // verus!
