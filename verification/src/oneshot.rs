//! Single-use channel for one value.

use vstd::prelude::*;

verus! {

/// The sending half of a single-use channel.
pub trait OneshotSender<T>: Sized {
    /// Sends `t` and uses up the sender. Where the receiver is gone the value
    /// comes back to the caller unchanged.
    fn send(self, t: T) -> (r: Result<(), T>)
        ensures
            r matches Err(back) ==> back == t,
    ;
}

} // verus!
