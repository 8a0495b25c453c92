//! One-shot promises: a producer settles a shared cell once, and one or many
//! consumers poll it until the value, or the news that the producer is gone,
//! is there.
//!
//! A promise is a pair of handles on one cell behind a lock. The cell is a
//! small state machine, and it is there that the contracts are exact: what a
//! poll returns, which suspension handles a settlement releases, and the laws
//! that tie the steps together. A handle locks the cell, takes one step and,
//! once the lock is released, wakes whoever the step released.
//!
//! - [`channel`]: one consumer, which takes the value out of the cell.
//! - [`pair`]: one consumer, and a producer that resolves or rejects.
//! - [`poly`]: any number of consumers, which all see the same value.
//! - [`promise_out`]: a blocking hand-off over a queue, with no cell at all.
//! - [`sync`]: what the handles take from `std` without proof.
use vstd::prelude::*;

pub mod channel;
pub mod pair;
pub mod poly;
pub mod promise_out;
pub mod sync;

verus! {

/// The one way in which a promise fails.
#[derive(Debug, Clone, Copy, PartialEq, Eq, Structural)]
pub enum Error {
    /// The producer went away without having resolved the promise.
    ProducerDropped,
}

impl Error {
    /// The message of this error, as text.
    pub fn to_string(&self) -> (text: String)
        ensures
            text@ == "producer dropped"@,
    {
        "producer dropped".to_owned()
    }
}

/// What a cell knows of those who wait on it. `W` is one suspension handle
/// where a single consumer waits, and a list of them where many may.
#[derive(Debug)]
pub enum WakerState<W> {
    /// Nobody has waited yet.
    Fresh,
    /// Somebody waits to be woken.
    Registered(W),
    /// The producer has settled the cell or has gone: nobody will be woken
    /// from here on, so nothing is registered any more.
    Tainted,
}

/// How far a cell has come. A cell starts `Empty` and never comes back to it.
#[derive(Debug, Clone, Copy, PartialEq, Eq, Structural)]
pub enum Phase {
    /// The producer can still settle the cell.
    Empty,
    /// The cell was resolved with a value.
    ValueSet,
    /// The producer went away without a value.
    Abandoned,
}

/// The producing half of a promise.
pub trait Promise<T> {
    /// The consuming half.
    type Waiter;

    /// Whether this producer and `waiter` are the two ends of one cell.
    spec fn paired(&self, waiter: &Self::Waiter) -> bool;

    /// Resolves the promise with `value` and wakes whoever waits for it. The
    /// producer is used up, so a promise cannot be resolved twice.
    fn resolve(self, value: T);

    /// A producer and a consumer that share one cell, empty and with nobody
    /// waiting.
    fn new() -> (ends: (Self, Self::Waiter)) where Self: Sized
        ensures
            ends.0.paired(&ends.1),
    ;
}

} // verus!
