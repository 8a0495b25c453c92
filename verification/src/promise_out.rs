//! A promise over a queue: whoever holds the channel can put a value in, and
//! whoever holds it can block until one arrives. There is no cell and nothing
//! to poll.
use crate::sync::{clone_sender, enter, guarded, new_mutex, new_queue, receive, send};
use std::sync::mpsc::{Receiver, RecvError, Sender};
use std::sync::{Arc, Mutex};
use vstd::prelude::*;

verus! {

/// Both ends of a queue in one handle. Every clone sends into the same queue
/// and receives from it.
#[derive(Debug)]
#[verifier::reject_recursive_types(T)]
pub struct PromiseOutChannel<T> {
    sender: Sender<T>,
    receiver: Arc<Mutex<Receiver<T>>>,
}

impl<T> PromiseOutChannel<T> {
    /// The receiving end, which this handle shares with its clones.
    pub closed spec fn queue(&self) -> Mutex<Receiver<T>> {
        *self.receiver
    }

    /// Puts `value` into the queue and gives up this handle. The handle holds
    /// the receiving end itself, so the queue is there to take the value.
    pub fn resolve(self, value: T) {
        let _ = send(&self.sender, value);
    }

    /// Puts `err` into the queue, as [`PromiseOutChannel::resolve`] does with
    /// a value: the queue carries one type, and telling the two apart is up to
    /// that type.
    pub fn reject(self, err: T) {
        let _ = send(&self.sender, err);
    }

    /// Blocks until a value is in the queue, and takes it out. The handle
    /// holds a sending end itself, so the queue cannot be closed meanwhile.
    pub fn await_promise(&self) -> (received: Result<T, RecvError>) {
        let mut guard = enter(&self.receiver);
        receive(guarded(&mut guard))
    }
}

impl<T> Clone for PromiseOutChannel<T> {
    /// Another handle on the same queue.
    fn clone(&self) -> (twin: Self)
        ensures
            twin.queue() == self.queue(),
    {
        PromiseOutChannel { sender: clone_sender(&self.sender), receiver: self.receiver.clone() }
    }
}

impl<T> Default for PromiseOutChannel<T> {
    /// A handle on a new, empty queue.
    fn default() -> (fresh: Self) {
        let (sender, receiver) = new_queue();
        PromiseOutChannel { sender, receiver: Arc::new(new_mutex(receiver)) }
    }
}

} // verus!
