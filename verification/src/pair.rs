//! A promise with a single consumer whose producer either resolves it with a
//! value or rejects it with an error of the caller's own.
//!
//! The cell is that of [`crate::channel`], with the outcome, `Ok` or `Err`, in
//! its slot: [`Inner`] adds the two ways to settle it. A consumer is given the
//! outcome as the producer left it, or [`Error::ProducerDropped`] where the
//! producer left none.
use crate::channel::Snapshot;
use crate::sync::{enter, guarded, new_mutex, wake};
use crate::{Error, Phase, Promise};
use std::sync::{Arc, Mutex};
use std::task::{Poll, Waker};
use vstd::prelude::*;

verus! {

/// The cell that a producer and its consumer share.
#[derive(Debug)]
pub struct Inner<T, E> {
    cell: crate::channel::Inner<Result<T, E>>,
}

impl<T, E> View for Inner<T, E> {
    type V = Snapshot<Result<T, E>>;

    closed spec fn view(&self) -> Snapshot<Result<T, E>> {
        self.cell@
    }
}

impl<T, E> Inner<T, E> {
    /// An empty cell with nobody waiting.
    pub fn new() -> (cell: Self)
        ensures
            cell@ == Snapshot::<Result<T, E>>::fresh(),
    {
        Inner { cell: crate::channel::Inner::new() }
    }

    /// How far the cell has come.
    pub fn phase(&self) -> (phase: Phase)
        ensures
            phase == self@.phase(),
            self@.wf(),
    {
        self.cell.phase()
    }

    /// Resolves the cell: an open cell takes `Ok(value)`, is tainted, and
    /// hands out the suspension handle that was registered. A cell that was
    /// settled before is left as it is and gives the outcome back.
    pub fn resolve(&mut self, value: T) -> (woken: Result<Option<Waker>, Result<T, E>>)
        ensures
            final(self)@ == old(self)@.after_resolve(Ok(value)),
            final(self)@.wf(),
            woken == if old(self)@.is_open() {
                Ok::<Option<Waker>, Result<T, E>>(old(self)@.registered())
            } else {
                Err::<Option<Waker>, Result<T, E>>(Ok(value))
            },
    {
        self.cell.resolve(Ok(value))
    }

    /// Rejects the cell: an open cell takes `Err(err)`, is tainted, and hands
    /// out the suspension handle that was registered. A cell that was settled
    /// before is left as it is and gives the outcome back.
    pub fn reject(&mut self, err: E) -> (woken: Result<Option<Waker>, Result<T, E>>)
        ensures
            final(self)@ == old(self)@.after_resolve(Err(err)),
            final(self)@.wf(),
            woken == if old(self)@.is_open() {
                Ok::<Option<Waker>, Result<T, E>>(old(self)@.registered())
            } else {
                Err::<Option<Waker>, Result<T, E>>(Err(err))
            },
    {
        self.cell.resolve(Err(err))
    }

    /// Taints the cell for a producer that goes away, and hands out the
    /// suspension handle that was registered. Whatever is in the slot stays.
    pub fn abandon(&mut self) -> (woken: Option<Waker>)
        ensures
            final(self)@ == old(self)@.after_abandon(),
            final(self)@.wf(),
            woken == old(self)@.registered(),
    {
        self.cell.abandon()
    }

    /// Polls the cell. An outcome in the slot is taken and returned. A tainted
    /// cell with an empty slot reports that the producer is gone. Otherwise
    /// `waker` is stored in place of any earlier handle, and the poll suspends.
    pub fn poll(&mut self, waker: Waker) -> (polled: Poll<Result<Result<T, E>, Error>>)
        ensures
            polled == old(self)@.poll_result(),
            final(self)@ == old(self)@.after_poll(waker),
            final(self)@.wf(),
    {
        self.cell.poll(waker)
    }
}

/// The end of a promise that settles it, by [`Promise::resolve`] or by
/// [`Producer::reject`]. There is one producer to a cell, and settling uses it
/// up. A producer that is merely dropped wakes nobody: the one who gives up a
/// promise calls [`Producer::abandon`].
#[derive(Debug)]
#[verifier::reject_recursive_types(T)]
#[verifier::reject_recursive_types(E)]
pub struct Producer<T, E> {
    promise: Arc<Mutex<Inner<T, E>>>,
}

/// The end of a promise that waits for the outcome. There is one consumer to
/// a cell, and it cannot be cloned. It is finished once a poll has returned
/// `Ready`: the outcome is handed over once.
#[derive(Debug)]
#[verifier::reject_recursive_types(T)]
#[verifier::reject_recursive_types(E)]
pub struct Consumer<T, E> {
    promise: Arc<Mutex<Inner<T, E>>>,
    finished: bool,
}

impl<T, E> Producer<T, E> {
    /// The lock that this producer shares with its consumer.
    pub closed spec fn cell(&self) -> Mutex<Inner<T, E>> {
        *self.promise
    }

    /// Puts `Err(err)` into the cell and, once the lock is released, wakes the
    /// consumer if it waits.
    pub fn reject(self, err: E) {
        let woken = {
            let mut guard = enter(&self.promise);
            guarded(&mut guard).reject(err)
        };
        if let Ok(Some(waker)) = woken {
            wake(waker);
        }
    }

    /// Gives the promise up: the cell is tainted, and a consumer that waits is
    /// woken to find that the producer is gone.
    pub fn abandon(self) {
        let woken = {
            let mut guard = enter(&self.promise);
            guarded(&mut guard).abandon()
        };
        if let Some(waker) = woken {
            wake(waker);
        }
    }
}

impl<T, E> Promise<T> for Producer<T, E> {
    type Waiter = Consumer<T, E>;

    open spec fn paired(&self, waiter: &Consumer<T, E>) -> bool {
        self.cell() == waiter.cell()
    }

    /// Puts `Ok(value)` into the cell and, once the lock is released, wakes
    /// the consumer if it waits.
    fn resolve(self, value: T) {
        let woken = {
            let mut guard = enter(&self.promise);
            guarded(&mut guard).resolve(value)
        };
        if let Ok(Some(waker)) = woken {
            wake(waker);
        }
    }

    fn new() -> (ends: (Self, Consumer<T, E>))
        ensures
            !ends.1.finished(),
    {
        let promise = Arc::new(new_mutex(Inner::new()));
        let consumer = Consumer { promise: promise.clone(), finished: false };
        (Producer { promise }, consumer)
    }
}

impl<T, E> Consumer<T, E> {
    /// The lock that this consumer shares with its producer.
    pub closed spec fn cell(&self) -> Mutex<Inner<T, E>> {
        *self.promise
    }

    /// Whether a poll of this consumer has returned `Ready`.
    pub closed spec fn finished(&self) -> bool {
        self.finished
    }

    /// Whether a poll of this consumer has returned `Ready`.
    pub fn is_finished(&self) -> (finished: bool)
        ensures
            finished == self.finished(),
    {
        self.finished
    }

    /// Polls the promise. A consumer that is not finished takes one
    /// [`Inner::poll`] step on the shared cell, under its lock: what comes back
    /// depends on what the producer has done by then, and the consumer is
    /// finished as soon as it is `Ready`. A finished consumer has nothing more
    /// to wait for, as the outcome is handed over once: it is told that the
    /// producer is gone, and the cell is left alone.
    pub fn poll(&mut self, waker: Waker) -> (polled: Poll<Result<Result<T, E>, Error>>)
        ensures
            final(self).cell() == old(self).cell(),
            final(self).finished() <==> old(self).finished() || polled is Ready,
            old(self).finished() ==> polled == Poll::Ready(
                Err::<Result<T, E>, Error>(Error::ProducerDropped),
            ),
    {
        if self.finished {
            return Poll::Ready(Err(Error::ProducerDropped));
        }
        let polled = {
            let mut guard = enter(&self.promise);
            guarded(&mut guard).poll(waker)
        };
        if let Poll::Ready(_) = &polled {
            self.finished = true;
        }
        polled
    }
}

/// Resolve, then poll: the poll returns `Ok` of the value at once.
pub proof fn lemma_resolve_then_poll<T, E>(cell: Snapshot<Result<T, E>>, value: T)
    requires
        cell.is_open(),
    ensures
        cell.after_resolve(Ok(value)).poll_result() == Poll::Ready(
            Ok::<Result<T, E>, Error>(Ok(value)),
        ),
{
}

/// Reject, then poll: the poll returns `Err` of the producer's error at once,
/// which is not the error of a producer that went away.
pub proof fn lemma_reject_then_poll<T, E>(cell: Snapshot<Result<T, E>>, err: E)
    requires
        cell.is_open(),
    ensures
        cell.after_resolve(Err(err)).poll_result() == Poll::Ready(
            Ok::<Result<T, E>, Error>(Err(err)),
        ),
{
}

} // verus!
