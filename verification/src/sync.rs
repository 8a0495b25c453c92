//! What the handles take from `std` as it is: the lock round a cell, the
//! suspension handle of a task, and the queue between threads. The types are
//! declared and the functions wrapped without proof, each with a word on what
//! is assumed of it. Only [`enter`] is verified.
use std::sync::mpsc::{channel, Receiver, RecvError, SendError, Sender};
use std::sync::{Mutex, MutexGuard, PoisonError};
use std::task::{Poll, Waker};
use vstd::prelude::*;

verus! {

/// `std::task::Waker`. A waker is carried and compared, never looked into.
#[verifier::external_type_specification]
#[verifier::external_body]
pub struct ExWaker(Waker);

/// `std::task::Poll`, with its two variants as `std` declares them.
#[verifier::external_type_specification]
#[verifier::reject_recursive_types(T)]
pub struct ExPoll<T>(Poll<T>);

/// `std::sync::Mutex`. What it guards is not part of its value.
#[verifier::external_type_specification]
#[verifier::external_body]
#[verifier::reject_recursive_types(T)]
pub struct ExMutex<T: ?Sized>(Mutex<T>);

/// `std::sync::MutexGuard`: the lock, for as long as it is held.
#[verifier::external_type_specification]
#[verifier::external_body]
#[verifier::reject_recursive_types(T)]
pub struct ExMutexGuard<'a, T: ?Sized + 'a>(MutexGuard<'a, T>);

/// `std::sync::PoisonError`: a holder of the lock panicked. It carries the
/// guard that was asked for.
#[verifier::external_type_specification]
#[verifier::external_body]
#[verifier::reject_recursive_types(T)]
pub struct ExPoisonError<T>(PoisonError<T>);

/// `std::sync::mpsc::Sender`, the sending end of a queue.
#[verifier::external_type_specification]
#[verifier::external_body]
#[verifier::reject_recursive_types(T)]
pub struct ExSender<T>(Sender<T>);

/// `std::sync::mpsc::Receiver`, the receiving end of a queue.
#[verifier::external_type_specification]
#[verifier::external_body]
#[verifier::reject_recursive_types(T)]
pub struct ExReceiver<T>(Receiver<T>);

/// `std::sync::mpsc::SendError`: the receiver is gone. It carries the value
/// that was not sent.
#[verifier::external_type_specification]
#[verifier::external_body]
#[verifier::reject_recursive_types(T)]
pub struct ExSendError<T>(SendError<T>);

/// `std::sync::mpsc::RecvError`: every sender is gone and the queue is empty.
#[verifier::external_type_specification]
#[verifier::external_body]
pub struct ExRecvError(RecvError);

/// `Waker::wake`. Assumed: the call returns. What the woken task then does is
/// up to its scheduler.
#[verifier::external_body]
pub(crate) fn wake(waker: Waker) {
    waker.wake()
}

/// `Mutex::new`. Nothing is assumed of the result.
#[verifier::external_body]
pub(crate) fn new_mutex<V>(value: V) -> (mutex: Mutex<V>) {
    Mutex::new(value)
}

/// `Mutex::lock`, which blocks until the lock is free. Assumed: the calling
/// thread does not hold this lock already, so the call returns. Nothing is
/// assumed of which way it returns.
#[verifier::external_body]
fn lock<'a, V>(mutex: &'a Mutex<V>) -> (locked: Result<
    MutexGuard<'a, V>,
    PoisonError<MutexGuard<'a, V>>,
>) {
    mutex.lock()
}

/// `PoisonError::into_inner`: the guard that the error carries.
#[verifier::external_body]
fn recover<G>(poisoned: PoisonError<G>) -> (guard: G) {
    poisoned.into_inner()
}

/// Takes the lock, also where an earlier holder panicked: no step of this
/// crate leaves a guarded value half changed, so what such a holder left
/// behind is as good as any other value.
pub(crate) fn enter<'a, V>(mutex: &'a Mutex<V>) -> (guard: MutexGuard<'a, V>) {
    match lock(mutex) {
        Ok(guard) => guard,
        Err(poisoned) => recover(poisoned),
    }
}

/// `DerefMut::deref_mut` of a `MutexGuard`: the guarded value, to read and to
/// change. Nothing is assumed of what is found there.
#[verifier::external_body]
pub(crate) fn guarded<'a, 'b, V>(guard: &'a mut MutexGuard<'b, V>) -> (value: &'a mut V) {
    &mut **guard
}

/// `std::sync::mpsc::channel`: the two ends of a new queue. Nothing is
/// assumed of them.
#[verifier::external_body]
pub(crate) fn new_queue<T>() -> (ends: (Sender<T>, Receiver<T>)) {
    channel()
}

/// `Clone::clone` of a `Sender`: one more sending end of the same queue.
/// Nothing is assumed of it.
#[verifier::external_body]
pub(crate) fn clone_sender<T>(sender: &Sender<T>) -> (twin: Sender<T>) {
    sender.clone()
}

/// `Sender::send`, which never blocks. Nothing is assumed of the result.
#[verifier::external_body]
pub(crate) fn send<T>(sender: &Sender<T>, value: T) -> (sent: Result<(), SendError<T>>) {
    sender.send(value)
}

/// `Receiver::recv`, which blocks until a value is in the queue or every
/// sender is gone. Nothing is assumed of what arrives.
#[verifier::external_body]
pub(crate) fn receive<T>(receiver: &Receiver<T>) -> (received: Result<T, RecvError>) {
    receiver.recv()
}

} // verus!
