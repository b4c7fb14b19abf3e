//! The backend on tokio.

use vstd::prelude::*;
use crate::mpsc_unbounded::{
    MpscUnbounded, MpscUnboundedReceiver, MpscUnboundedSender, MpscUnboundedWeakSender,
    TryRecvFailure,
};
use crate::oneshot::OneshotSender;
use crate::watch::{Closed, Watch, WatchRead, WatchSender};

verus! {

/// tokio's owning producer handle of an unbounded queue; opaque here.
#[verifier::external_type_specification]
#[verifier::external_body]
#[verifier::reject_recursive_types(T)]
pub struct ExUnboundedSender<T>(tokio::sync::mpsc::UnboundedSender<T>);

/// tokio's consumer handle of an unbounded queue; opaque here.
#[verifier::external_type_specification]
#[verifier::external_body]
#[verifier::reject_recursive_types(T)]
pub struct ExUnboundedReceiver<T>(tokio::sync::mpsc::UnboundedReceiver<T>);

/// tokio's non-owning producer handle of an unbounded queue; opaque here.
#[verifier::external_type_specification]
#[verifier::external_body]
#[verifier::reject_recursive_types(T)]
pub struct ExWeakUnboundedSender<T>(tokio::sync::mpsc::WeakUnboundedSender<T>);

/// tokio's error of a poll, with its two variants `Empty` and `Disconnected`.
#[verifier::external_type_specification]
pub struct ExTryRecvError(tokio::sync::mpsc::error::TryRecvError);

/// The unbounded queue of tokio.
pub struct TokioMpscUnbounded;

/// Calls `tokio::sync::mpsc::unbounded_channel`. Nothing is claimed of the
/// two handles.
#[verifier::external_body]
fn tokio_unbounded_channel<T>() -> (ends: (
    tokio::sync::mpsc::UnboundedSender<T>,
    tokio::sync::mpsc::UnboundedReceiver<T>,
)) {
    tokio::sync::mpsc::unbounded_channel()
}

/// Calls `UnboundedSender::send` and moves the message out of tokio's error.
/// Claimed: an error holds the very message that was passed in.
#[verifier::external_body]
fn tokio_unbounded_send<T>(
    sender: &tokio::sync::mpsc::UnboundedSender<T>,
    msg: T,
) -> (r: Result<(), T>)
    ensures
        r matches Err(back) ==> back == msg,
{
    sender.send(msg).map_err(|e| e.0)
}

/// Calls `UnboundedSender::downgrade`. Nothing is claimed of the handle.
#[verifier::external_body]
fn tokio_downgrade<T>(
    sender: &tokio::sync::mpsc::UnboundedSender<T>,
) -> (weak: tokio::sync::mpsc::WeakUnboundedSender<T>) {
    sender.downgrade()
}

/// Calls `WeakUnboundedSender::upgrade`. Nothing is claimed of the result.
#[verifier::external_body]
fn tokio_upgrade<T>(
    weak: &tokio::sync::mpsc::WeakUnboundedSender<T>,
) -> (strong: Option<tokio::sync::mpsc::UnboundedSender<T>>) {
    weak.upgrade()
}

/// Calls `UnboundedReceiver::try_recv`. Nothing is claimed of the result: it
/// depends on what the producers have done by now.
#[verifier::external_body]
fn tokio_try_recv<T>(
    receiver: &mut tokio::sync::mpsc::UnboundedReceiver<T>,
) -> (polled: Result<T, tokio::sync::mpsc::error::TryRecvError>) {
    receiver.try_recv()
}

/// The failure that stands for tokio's error `e`.
pub open spec fn failure_of(e: tokio::sync::mpsc::error::TryRecvError) -> TryRecvFailure {
    match e {
        tokio::sync::mpsc::error::TryRecvError::Empty => TryRecvFailure::Empty,
        tokio::sync::mpsc::error::TryRecvError::Disconnected => TryRecvFailure::Disconnected,
    }
}

/// What a poll reports for the outcome `polled` of tokio's poll: the message
/// as it is, or the failure that stands for tokio's error.
pub open spec fn poll_outcome<T>(
    polled: Result<T, tokio::sync::mpsc::error::TryRecvError>,
) -> Result<T, TryRecvFailure> {
    match polled {
        Ok(msg) => Ok(msg),
        Err(e) => Err(failure_of(e)),
    }
}

/// Turns the outcome of tokio's poll into this library's.
pub fn try_recv_outcome<T>(
    polled: Result<T, tokio::sync::mpsc::error::TryRecvError>,
) -> (r: Result<T, TryRecvFailure>)
    ensures
        r == poll_outcome(polled),
{
    match polled {
        Ok(msg) => Ok(msg),
        Err(tokio::sync::mpsc::error::TryRecvError::Empty) => Err(TryRecvFailure::Empty),
        Err(tokio::sync::mpsc::error::TryRecvError::Disconnected) => {
            Err(TryRecvFailure::Disconnected)
        },
    }
}

impl<T> MpscUnbounded<T> for TokioMpscUnbounded {
    type Sender = tokio::sync::mpsc::UnboundedSender<T>;

    type Receiver = tokio::sync::mpsc::UnboundedReceiver<T>;

    type WeakSender = tokio::sync::mpsc::WeakUnboundedSender<T>;

    fn channel() -> (ends: (Self::Sender, Self::Receiver)) {
        tokio_unbounded_channel()
    }
}

impl<T> MpscUnboundedSender<T> for tokio::sync::mpsc::UnboundedSender<T> {
    type WeakSender = tokio::sync::mpsc::WeakUnboundedSender<T>;

    fn send(&self, msg: T) -> (r: Result<(), crate::mpsc_unbounded::SendError<T>>) {
        crate::mpsc_unbounded::SendError::from_returned(tokio_unbounded_send(self, msg))
    }

    fn downgrade(&self) -> (weak: Self::WeakSender) {
        tokio_downgrade(self)
    }
}

impl<T> MpscUnboundedReceiver<T> for tokio::sync::mpsc::UnboundedReceiver<T> {
    fn try_recv(&mut self) -> (r: Result<T, TryRecvFailure>) {
        try_recv_outcome(tokio_try_recv(self))
    }
}

impl<T> MpscUnboundedWeakSender<T> for tokio::sync::mpsc::WeakUnboundedSender<T> {
    type Sender = tokio::sync::mpsc::UnboundedSender<T>;

    fn upgrade(&self) -> (strong: Option<Self::Sender>) {
        tokio_upgrade(self)
    }
}

/// tokio's writing handle of a watch cell; opaque here.
#[verifier::external_type_specification]
#[verifier::external_body]
#[verifier::reject_recursive_types(T)]
pub struct ExWatchSender<T>(tokio::sync::watch::Sender<T>);

/// tokio's reading handle of a watch cell; opaque here.
#[verifier::external_type_specification]
#[verifier::external_body]
#[verifier::reject_recursive_types(T)]
pub struct ExWatchReceiver<T>(tokio::sync::watch::Receiver<T>);

/// tokio's read guard on the value of a watch cell; opaque here.
#[verifier::external_type_specification]
#[verifier::external_body]
#[verifier::reject_recursive_types(T)]
pub struct ExWatchRef<'a, T>(tokio::sync::watch::Ref<'a, T>);

/// tokio's error of a wait for a change on a cell whose writers are all
/// gone; opaque here.
#[verifier::external_type_specification]
#[verifier::external_body]
pub struct ExWatchRecvError(tokio::sync::watch::error::RecvError);

/// The watch cell of tokio.
pub struct TokioWatch;

/// Calls `tokio::sync::watch::channel`. Nothing is claimed of the two handles.
#[verifier::external_body]
fn tokio_watch_channel<T>(init: T) -> (ends: (
    tokio::sync::watch::Sender<T>,
    tokio::sync::watch::Receiver<T>,
)) {
    tokio::sync::watch::channel(init)
}

/// Calls `watch::Sender::send` and moves the value out of tokio's error.
/// Claimed: an error holds the very value that was passed in.
#[verifier::external_body]
fn tokio_watch_send<T>(sender: &tokio::sync::watch::Sender<T>, value: T) -> (r: Result<(), T>)
    ensures
        r matches Err(back) ==> back == value,
{
    sender.send(value).map_err(|e| e.0)
}

/// Calls `watch::Sender::send_if_modified`, which runs `modify` once on the
/// value in the cell and returns what `modify` returned. Claimed: the result
/// is one that `modify` can give. Asked: `modify` can be called on any value,
/// since nothing is known of the one in the cell. tokio passes a panic of
/// `modify` on; a closure that is called within its contract has none.
#[verifier::external_body]
fn tokio_send_if_modified<T, F>(
    sender: &tokio::sync::watch::Sender<T>,
    modify: F,
) -> (modified: bool) where F: FnOnce(&mut T) -> bool
    requires
        forall|slot: &mut T| call_requires(modify, (slot,)),
    ensures
        exists|slot: &mut T| call_ensures(modify, (slot,), modified),
{
    sender.send_if_modified(modify)
}

/// Calls `watch::Sender::borrow`. Nothing is claimed of the guard.
#[verifier::external_body]
fn tokio_sender_borrow<'a, T>(
    sender: &'a tokio::sync::watch::Sender<T>,
) -> (view: tokio::sync::watch::Ref<'a, T>) {
    sender.borrow()
}

/// Calls `watch::Receiver::borrow`. Nothing is claimed of the guard.
#[verifier::external_body]
fn tokio_receiver_borrow<'a, T>(
    receiver: &'a tokio::sync::watch::Receiver<T>,
) -> (view: tokio::sync::watch::Ref<'a, T>) {
    receiver.borrow()
}

/// What a wait for a change reports for the outcome `waited` of tokio's
/// wait: a change stays a change, and tokio's error, which says nothing more
/// than that the cell is closed, becomes `Closed`.
pub open spec fn wait_outcome(
    waited: Result<(), tokio::sync::watch::error::RecvError>,
) -> Result<(), Closed> {
    match waited {
        Ok(_) => Ok(()),
        Err(_) => Err(Closed),
    }
}

/// Turns the outcome of tokio's wait for a change into this library's.
pub fn changed_outcome(
    waited: Result<(), tokio::sync::watch::error::RecvError>,
) -> (r: Result<(), Closed>)
    ensures
        r == wait_outcome(waited),
{
    match waited {
        Ok(()) => Ok(()),
        Err(_) => Err(Closed),
    }
}

impl<T> Watch<T> for TokioWatch {
    type Sender = tokio::sync::watch::Sender<T>;

    type Receiver = tokio::sync::watch::Receiver<T>;

    fn channel(init: T) -> (ends: (Self::Sender, Self::Receiver)) {
        tokio_watch_channel(init)
    }
}

impl<T> WatchSender<T> for tokio::sync::watch::Sender<T> {
    fn send(&self, value: T) -> (r: Result<(), crate::watch::SendError<T>>) {
        crate::watch::SendError::from_returned(tokio_watch_send(self, value))
    }

    fn send_if_modified<F>(&self, modify: F) -> (modified: bool) where F: FnOnce(&mut T) -> bool {
        tokio_send_if_modified(self, modify)
    }
}

impl<'a, T: 'a> WatchRead<'a, T> for tokio::sync::watch::Sender<T> {
    type Ref = tokio::sync::watch::Ref<'a, T>;

    fn borrow_watched(&'a self) -> (view: Self::Ref) {
        tokio_sender_borrow(self)
    }
}

impl<'a, T: 'a> WatchRead<'a, T> for tokio::sync::watch::Receiver<T> {
    type Ref = tokio::sync::watch::Ref<'a, T>;

    fn borrow_watched(&'a self) -> (view: Self::Ref) {
        tokio_receiver_borrow(self)
    }
}

/// tokio's sending half of a single-use channel; opaque here.
#[verifier::external_type_specification]
#[verifier::external_body]
#[verifier::reject_recursive_types(T)]
pub struct ExOneshotSender<T>(tokio::sync::oneshot::Sender<T>);

/// tokio's receiving half of a single-use channel; opaque here.
#[verifier::external_type_specification]
#[verifier::external_body]
#[verifier::reject_recursive_types(T)]
pub struct ExOneshotReceiver<T>(tokio::sync::oneshot::Receiver<T>);

/// tokio's error of a single-use receiver whose sender went away without
/// sending; opaque here.
#[verifier::external_type_specification]
#[verifier::external_body]
pub struct ExOneshotRecvError(tokio::sync::oneshot::error::RecvError);

/// tokio's report of a task that did not run to its end; opaque here.
#[verifier::external_type_specification]
#[verifier::external_body]
pub struct ExJoinError(tokio::task::JoinError);

/// rand's handle to the random source of the calling thread; opaque here.
#[verifier::external_type_specification]
#[verifier::external_body]
pub struct ExThreadRng(rand::rngs::ThreadRng);

/// Calls `tokio::sync::oneshot::channel`. Nothing is claimed of the two
/// halves.
#[verifier::external_body]
fn tokio_oneshot_channel<T>() -> (ends: (
    tokio::sync::oneshot::Sender<T>,
    tokio::sync::oneshot::Receiver<T>,
)) {
    tokio::sync::oneshot::channel()
}

/// Calls `oneshot::Sender::send`. Claimed: an error is the very value that
/// was passed in.
#[verifier::external_body]
fn tokio_oneshot_send<T>(sender: tokio::sync::oneshot::Sender<T>, t: T) -> (r: Result<(), T>)
    ensures
        r matches Err(back) ==> back == t,
{
    sender.send(t)
}

/// Whether tokio's `JoinError::is_panic` holds of `join_error`: it reads the
/// error alone, so one error gives one answer.
pub uninterp spec fn ended_by_panic(join_error: tokio::task::JoinError) -> bool;

/// Calls `JoinError::is_panic`. Claimed: the answer is the one that belongs
/// to this error.
#[verifier::external_body]
fn tokio_is_panic(join_error: &tokio::task::JoinError) -> (panicked: bool)
    ensures
        panicked == ended_by_panic(*join_error),
{
    join_error.is_panic()
}

/// Calls `rand::thread_rng`. Nothing is claimed of the handle. rand gives up
/// only where the system's random source cannot seed the thread's generator.
#[verifier::external_body]
fn rand_thread_rng() -> (rng: rand::rngs::ThreadRng) {
    rand::thread_rng()
}

impl<T> OneshotSender<T> for tokio::sync::oneshot::Sender<T> {
    fn send(self, t: T) -> (r: Result<(), T>) {
        tokio_oneshot_send(self, t)
    }
}

/// The runtime of tokio.
#[derive(Debug, PartialEq, Eq, Structural)]
pub struct TokioRuntime;

impl Default for TokioRuntime {
    fn default() -> (runtime: Self)
        ensures
            runtime == TokioRuntime,
    {
        TokioRuntime
    }
}

impl TokioRuntime {
    /// Whether a task ended by panicking, as opposed to being cancelled.
    pub fn is_panic(join_error: &tokio::task::JoinError) -> (panicked: bool)
        ensures
            panicked == ended_by_panic(*join_error),
    {
        tokio_is_panic(join_error)
    }

    /// The random source of the calling thread.
    pub fn thread_rng() -> (rng: rand::rngs::ThreadRng) {
        rand_thread_rng()
    }

    /// Makes a single-use channel and hands out its two halves.
    pub fn oneshot<T>() -> (ends: (
        tokio::sync::oneshot::Sender<T>,
        tokio::sync::oneshot::Receiver<T>,
    )) {
        tokio_oneshot_channel()
    }
}

} // verus!
