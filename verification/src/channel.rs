//! A promise with a single consumer, which takes the value out of the cell.
//!
//! [`Inner`] is the cell: a slot for the value and the state of the one
//! suspension handle. [`Snapshot`] is the cell as the contracts see it, and its
//! spec functions are the steps of the state machine. [`Producer`] and
//! [`Consumer`] are the two handles on a cell behind its lock.
use crate::sync::{enter, guarded, new_mutex, wake};
use crate::{Error, Phase, Promise, WakerState};
use std::sync::{Arc, Mutex};
use std::task::{Poll, Waker};
use vstd::prelude::*;

verus! {

/// The slot of a cell, which holds the value on its way from the producer to
/// the consumer.
#[derive(Debug)]
pub enum Slot<T> {
    /// No value has been put in.
    Unset,
    /// The value that the producer resolved with, not yet taken.
    Value(T),
    /// The consumer has taken the value.
    Taken,
}

/// A cell as a value: what is in the slot, and who waits.
pub struct Snapshot<T> {
    /// The slot.
    pub slot: Slot<T>,
    /// The suspension handle of the consumer, or why there is none.
    pub waker: WakerState<Waker>,
}

/// One step on a cell, by either handle.
pub enum Event<T> {
    /// The consumer polls, and would be woken through this handle.
    Poll(Waker),
    /// The producer resolves with this value.
    Resolve(T),
    /// The producer goes away.
    Abandon,
}

impl<T> Snapshot<T> {
    /// The cell that a new pair shares: no value, nobody waiting.
    pub open spec fn fresh() -> Self {
        Snapshot { slot: Slot::Unset, waker: WakerState::Fresh }
    }

    /// A slot is only ever used in a tainted cell.
    pub open spec fn wf(self) -> bool {
        !(self.slot is Unset) ==> self.waker is Tainted
    }

    /// Whether the producer can still settle the cell.
    pub open spec fn is_open(self) -> bool {
        !(self.waker is Tainted)
    }

    /// How far the cell has come. A cell that was resolved stays `ValueSet`
    /// when its value is taken.
    pub open spec fn phase(self) -> Phase {
        match self.slot {
            Slot::Unset => if self.waker is Tainted {
                Phase::Abandoned
            } else {
                Phase::Empty
            },
            _ => Phase::ValueSet,
        }
    }

    /// The suspension handle that waits in the cell. It is what a settlement
    /// hands out to be woken.
    pub open spec fn registered(self) -> Option<Waker> {
        match self.waker {
            WakerState::Registered(waker) => Some(waker),
            _ => None,
        }
    }

    /// The cell after the producer resolves with `value`: an open cell takes
    /// the value and is tainted, any other stays as it is.
    pub open spec fn after_resolve(self, value: T) -> Self {
        if self.is_open() {
            Snapshot { slot: Slot::Value(value), waker: WakerState::Tainted }
        } else {
            self
        }
    }

    /// The cell after the producer has gone: tainted, its slot untouched.
    pub open spec fn after_abandon(self) -> Self {
        Snapshot { slot: self.slot, waker: WakerState::Tainted }
    }

    /// What a poll of this cell returns: the value if one is in the slot,
    /// nothing yet if the cell is open, and else the error. The error is also
    /// what a poll is given once the value has been taken: the producer is
    /// gone by then, and nothing is left to hand over.
    pub open spec fn poll_result(self) -> Poll<Result<T, Error>> {
        match self.slot {
            Slot::Value(value) => Poll::Ready(Ok(value)),
            Slot::Taken => Poll::Ready(Err(Error::ProducerDropped)),
            Slot::Unset => if self.waker is Tainted {
                Poll::Ready(Err(Error::ProducerDropped))
            } else {
                Poll::Pending
            },
        }
    }

    /// The cell after a poll with `waker`: where the poll suspends, `waker`
    /// takes the place of any handle stored before, and where it returns the
    /// value, the slot is left as taken.
    pub open spec fn after_poll(self, waker: Waker) -> Self {
        if self.poll_result() is Pending {
            Snapshot { slot: self.slot, waker: WakerState::Registered(waker) }
        } else if self.slot is Value {
            Snapshot { slot: Slot::Taken, waker: self.waker }
        } else {
            self
        }
    }

    /// The cell after one event.
    pub open spec fn step(self, event: Event<T>) -> Self {
        match event {
            Event::Poll(waker) => self.after_poll(waker),
            Event::Resolve(value) => self.after_resolve(value),
            Event::Abandon => self.after_abandon(),
        }
    }

    /// The cell after a run of events, first to last.
    pub open spec fn run(self, events: Seq<Event<T>>) -> Self
        decreases events.len(),
    {
        if events.len() == 0 {
            self
        } else {
            self.run(events.drop_last()).step(events.last())
        }
    }

    /// How often a run of events writes a value into the slot: once for each
    /// `Resolve` that finds the cell open.
    pub open spec fn writes(self, events: Seq<Event<T>>) -> nat
        decreases events.len(),
    {
        if events.len() == 0 {
            0
        } else {
            let before = self.run(events.drop_last());
            let written: nat = if events.last() is Resolve && before.is_open() {
                1
            } else {
                0
            };
            self.writes(events.drop_last()) + written
        }
    }
}

/// The handle of the last poll among `events`, if there is a poll at all.
pub open spec fn last_poll<T>(events: Seq<Event<T>>) -> Option<Waker>
    decreases events.len(),
{
    if events.len() == 0 {
        None
    } else {
        match events.last() {
            Event::Poll(waker) => Some(waker),
            _ => last_poll(events.drop_last()),
        }
    }
}

/// The cell that a producer and its consumer share.
#[derive(Debug)]
pub struct Inner<T> {
    slot: Slot<T>,
    waker: WakerState<Waker>,
}

impl<T> View for Inner<T> {
    type V = Snapshot<T>;

    closed spec fn view(&self) -> Snapshot<T> {
        Snapshot { slot: self.slot, waker: self.waker }
    }
}

impl<T> Inner<T> {
    #[verifier::type_invariant]
    spec fn well_formed(&self) -> bool {
        self@.wf()
    }

    /// An empty cell with nobody waiting.
    pub fn new() -> (cell: Self)
        ensures
            cell@ == Snapshot::<T>::fresh(),
    {
        Inner { slot: Slot::Unset, waker: WakerState::Fresh }
    }

    /// How far the cell has come.
    pub fn phase(&self) -> (phase: Phase)
        ensures
            phase == self@.phase(),
            self@.wf(),
    {
        proof {
            use_type_invariant(self);
        }
        match (&self.slot, &self.waker) {
            (Slot::Unset, WakerState::Tainted) => Phase::Abandoned,
            (Slot::Unset, _) => Phase::Empty,
            _ => Phase::ValueSet,
        }
    }

    /// Resolves the cell. An open cell takes `value`, is tainted, and hands
    /// out the suspension handle that was registered, for the caller to wake.
    /// A cell that was settled before is left as it is and gives `value` back.
    pub fn resolve(&mut self, value: T) -> (woken: Result<Option<Waker>, T>)
        ensures
            final(self)@ == old(self)@.after_resolve(value),
            final(self)@.wf(),
            woken == if old(self)@.is_open() {
                Ok::<Option<Waker>, T>(old(self)@.registered())
            } else {
                Err::<Option<Waker>, T>(value)
            },
    {
        if let WakerState::Tainted = &self.waker {
            proof {
                use_type_invariant(&*self);
            }
            return Err(value);
        }
        let mut previous = WakerState::Tainted;
        std::mem::swap(&mut self.waker, &mut previous);
        self.slot = Slot::Value(value);
        match previous {
            WakerState::Registered(waker) => Ok(Some(waker)),
            _ => Ok(None),
        }
    }

    /// Taints the cell for a producer that goes away, and hands out the
    /// suspension handle that was registered. Whatever is in the slot stays.
    pub fn abandon(&mut self) -> (woken: Option<Waker>)
        ensures
            final(self)@ == old(self)@.after_abandon(),
            final(self)@.wf(),
            woken == old(self)@.registered(),
    {
        let mut previous = WakerState::Tainted;
        std::mem::swap(&mut self.waker, &mut previous);
        match previous {
            WakerState::Registered(waker) => Some(waker),
            _ => None,
        }
    }

    /// Polls the cell. A value in the slot is taken and returned. An open cell
    /// stores `waker` in place of any earlier handle, and the poll suspends.
    /// In a tainted cell whose slot holds no value, be it that none was ever
    /// put in or that it was taken, the poll reports that the producer is gone.
    pub fn poll(&mut self, waker: Waker) -> (polled: Poll<Result<T, Error>>)
        ensures
            polled == old(self)@.poll_result(),
            final(self)@ == old(self)@.after_poll(waker),
            final(self)@.wf(),
    {
        proof {
            use_type_invariant(&*self);
        }
        if let WakerState::Tainted = &self.waker {
            let mut found = Slot::Taken;
            std::mem::swap(&mut self.slot, &mut found);
            match found {
                Slot::Value(value) => Poll::Ready(Ok(value)),
                Slot::Taken => Poll::Ready(Err(Error::ProducerDropped)),
                Slot::Unset => {
                    self.slot = Slot::Unset;
                    Poll::Ready(Err(Error::ProducerDropped))
                },
            }
        } else {
            self.waker = WakerState::Registered(waker);
            Poll::Pending
        }
    }
}

/// The end of a promise that settles it. There is one producer to a cell, and
/// settling uses it up. A producer that is merely dropped wakes nobody: the
/// one who gives up a promise calls [`Producer::abandon`].
#[derive(Debug)]
#[verifier::reject_recursive_types(T)]
pub struct Producer<T> {
    promise: Arc<Mutex<Inner<T>>>,
}

/// The end of a promise that waits for the value. There is one consumer to a
/// cell, and it cannot be cloned. It is finished once a poll has returned
/// `Ready`: the value is handed over once.
#[derive(Debug)]
#[verifier::reject_recursive_types(T)]
pub struct Consumer<T> {
    promise: Arc<Mutex<Inner<T>>>,
    finished: bool,
}

impl<T> Producer<T> {
    /// The lock that this producer shares with its consumer.
    pub closed spec fn cell(&self) -> Mutex<Inner<T>> {
        *self.promise
    }

    /// Gives the promise up: the cell is tainted, and a consumer that waits is
    /// woken to find that the producer is gone.
    pub fn abandon(self) {
        let woken = {
            let mut guard = enter(&self.promise);
            guarded(&mut guard).abandon()
        };
        if let Some(waker) = woken {
            wake(waker);
        }
    }
}

impl<T> Promise<T> for Producer<T> {
    type Waiter = Consumer<T>;

    open spec fn paired(&self, waiter: &Consumer<T>) -> bool {
        self.cell() == waiter.cell()
    }

    /// Puts `value` into the cell and, once the lock is released, wakes the
    /// consumer if it waits.
    fn resolve(self, value: T) {
        let woken = {
            let mut guard = enter(&self.promise);
            guarded(&mut guard).resolve(value)
        };
        if let Ok(Some(waker)) = woken {
            wake(waker);
        }
    }

    fn new() -> (ends: (Self, Consumer<T>))
        ensures
            !ends.1.finished(),
    {
        let promise = Arc::new(new_mutex(Inner::new()));
        let consumer = Consumer { promise: promise.clone(), finished: false };
        (Producer { promise }, consumer)
    }
}

impl<T> Consumer<T> {
    /// The lock that this consumer shares with its producer.
    pub closed spec fn cell(&self) -> Mutex<Inner<T>> {
        *self.promise
    }

    /// Whether a poll of this consumer has returned `Ready`.
    pub closed spec fn finished(&self) -> bool {
        self.finished
    }

    /// Whether a poll of this consumer has returned `Ready`.
    pub fn is_finished(&self) -> (finished: bool)
        ensures
            finished == self.finished(),
    {
        self.finished
    }

    /// Polls the promise. A consumer that is not finished takes one
    /// [`Inner::poll`] step on the shared cell, under its lock: what comes back
    /// depends on what the producer has done by then, and the consumer is
    /// finished as soon as it is `Ready`. A finished consumer has nothing more
    /// to wait for, as the value is handed over once: it is told that the
    /// producer is gone, and the cell is left alone.
    pub fn poll(&mut self, waker: Waker) -> (polled: Poll<Result<T, Error>>)
        ensures
            final(self).cell() == old(self).cell(),
            final(self).finished() <==> old(self).finished() || polled is Ready,
            old(self).finished() ==> polled == Poll::Ready(
                Err::<T, Error>(Error::ProducerDropped),
            ),
    {
        if self.finished {
            return Poll::Ready(Err(Error::ProducerDropped));
        }
        let polled = {
            let mut guard = enter(&self.promise);
            guarded(&mut guard).poll(waker)
        };
        if let Poll::Ready(_) = &polled {
            self.finished = true;
        }
        polled
    }
}

/// A step takes a well-formed cell to a well-formed cell.
pub proof fn lemma_step_keeps_wf<T>(cell: Snapshot<T>, event: Event<T>)
    requires
        cell.wf(),
    ensures
        cell.step(event).wf(),
{
}

/// A run of steps takes a well-formed cell to a well-formed cell: wherever
/// the slot has been used, the cell is tainted.
pub proof fn lemma_run_keeps_wf<T>(cell: Snapshot<T>, events: Seq<Event<T>>)
    requires
        cell.wf(),
    ensures
        cell.run(events).wf(),
    decreases events.len(),
{
    if events.len() > 0 {
        lemma_run_keeps_wf(cell, events.drop_last());
    }
}

/// The state of the suspension handle only moves forward: a cell that is no
/// longer fresh never is fresh again, and a tainted cell stays tainted.
pub proof fn lemma_waker_state_moves_forward<T>(cell: Snapshot<T>, events: Seq<Event<T>>)
    ensures
        !(cell.waker is Fresh) ==> !(cell.run(events).waker is Fresh),
        !cell.is_open() ==> !cell.run(events).is_open(),
    decreases events.len(),
{
    if events.len() > 0 {
        lemma_waker_state_moves_forward(cell, events.drop_last());
    }
}

/// The phases of a cell and the steps between them. An empty cell stays empty
/// under a poll, gets its value from a resolve and is abandoned when the
/// producer goes. From a cell that was resolved, and from an abandoned one, no
/// step leads anywhere else.
pub proof fn lemma_phase_step<T>(cell: Snapshot<T>, event: Event<T>)
    requires
        cell.wf(),
    ensures
        cell.step(event).phase() == match cell.phase() {
            Phase::Empty => match event {
                Event::Poll(_) => Phase::Empty,
                Event::Resolve(_) => Phase::ValueSet,
                Event::Abandon => Phase::Abandoned,
            },
            Phase::ValueSet => Phase::ValueSet,
            Phase::Abandoned => Phase::Abandoned,
        },
{
}

/// A phase other than `Empty` is final: a cell that was resolved, or
/// abandoned, is in that same phase after any run of events.
pub proof fn lemma_phase_is_final<T>(cell: Snapshot<T>, events: Seq<Event<T>>)
    requires
        cell.wf(),
        cell.phase() != Phase::Empty,
    ensures
        cell.run(events).phase() == cell.phase(),
    decreases events.len(),
{
    if events.len() > 0 {
        lemma_phase_is_final(cell, events.drop_last());
        lemma_run_keeps_wf(cell, events.drop_last());
        lemma_phase_step(cell.run(events.drop_last()), events.last());
    }
}

/// A settled cell is deaf to its producer: neither a resolve nor the
/// producer's going changes it, and neither finds a handle to wake.
pub proof fn lemma_settled_cell_ignores_producer<T>(cell: Snapshot<T>, value: T)
    requires
        !cell.is_open(),
    ensures
        cell.after_resolve(value) == cell,
        cell.after_abandon() == cell,
        cell.registered() is None,
{
}

/// A cell is written at most once: after a first resolve, a second one
/// changes nothing, whatever its value.
pub proof fn lemma_second_resolve_is_refused<T>(cell: Snapshot<T>, first: T, second: T)
    ensures
        !cell.after_resolve(first).is_open(),
        cell.after_resolve(first).after_resolve(second) == cell.after_resolve(first),
{
}

/// A cell is written at most once in any run of events, and never once it is
/// tainted.
pub proof fn lemma_write_once<T>(cell: Snapshot<T>, events: Seq<Event<T>>)
    ensures
        cell.writes(events) <= 1,
        !cell.is_open() ==> cell.writes(events) == 0,
        cell.writes(events) == 1 ==> !cell.run(events).is_open(),
    decreases events.len(),
{
    if events.len() > 0 {
        lemma_write_once(cell, events.drop_last());
        lemma_waker_state_moves_forward(cell, events.drop_last());
    }
}

/// Resolve, then poll: the poll returns the value at once, and registers
/// nothing.
pub proof fn lemma_resolve_then_poll<T>(cell: Snapshot<T>, value: T, waker: Waker)
    requires
        cell.is_open(),
    ensures
        cell.after_resolve(value).poll_result() == Poll::Ready(Ok::<T, Error>(value)),
        cell.after_resolve(value).after_poll(waker).registered() is None,
{
}

/// Poll, then resolve: the poll suspends and leaves its handle in the cell
/// for the resolve to hand out, and after the resolve the next poll returns
/// the value.
pub proof fn lemma_poll_then_resolve<T>(cell: Snapshot<T>, waker: Waker, value: T)
    requires
        cell.wf(),
        cell.is_open(),
    ensures
        cell.poll_result() is Pending,
        cell.after_poll(waker).is_open(),
        cell.after_poll(waker).registered() == Some(waker),
        cell.after_poll(waker).after_resolve(value).poll_result() == Poll::Ready(
            Ok::<T, Error>(value),
        ),
{
}

/// The producer goes, then poll: the poll returns the error at once, and
/// registers nothing.
pub proof fn lemma_abandon_then_poll<T>(cell: Snapshot<T>, waker: Waker)
    requires
        cell.wf(),
        cell.is_open(),
    ensures
        cell.after_abandon().poll_result() == Poll::Ready(
            Err::<T, Error>(Error::ProducerDropped),
        ),
        cell.after_abandon().after_poll(waker).registered() is None,
{
}

/// Poll, then the producer goes: the poll suspends and leaves its handle in
/// the cell for the producer's going to hand out, and after that the next poll
/// returns the error.
pub proof fn lemma_poll_then_abandon<T>(cell: Snapshot<T>, waker: Waker)
    requires
        cell.wf(),
        cell.is_open(),
    ensures
        cell.poll_result() is Pending,
        cell.after_poll(waker).is_open(),
        cell.after_poll(waker).registered() == Some(waker),
        cell.after_poll(waker).after_abandon().poll_result() == Poll::Ready(
            Err::<T, Error>(Error::ProducerDropped),
        ),
{
}

/// The value is read once: after the poll that took it, the slot stays taken
/// whatever happens, and no later poll returns a value again.
pub proof fn lemma_value_is_taken_once<T>(cell: Snapshot<T>, waker: Waker, events: Seq<Event<T>>)
    requires
        cell.wf(),
        cell.slot is Value,
    ensures
        cell.after_poll(waker).run(events).slot is Taken,
        cell.after_poll(waker).run(events).poll_result() == Poll::Ready(
            Err::<T, Error>(Error::ProducerDropped),
        ),
    decreases events.len(),
{
    if events.len() > 0 {
        lemma_value_is_taken_once(cell, waker, events.drop_last());
        lemma_waker_state_moves_forward(cell.after_poll(waker), events.drop_last());
    }
}

/// While a cell that started fresh is open, every poll so far has suspended,
/// and the handle in the cell is that of the latest poll.
pub proof fn lemma_open_cell_holds_latest_poll<T>(events: Seq<Event<T>>)
    ensures
        Snapshot::<T>::fresh().run(events).is_open() ==> {
            &&& Snapshot::<T>::fresh().run(events).poll_result() is Pending
            &&& Snapshot::<T>::fresh().run(events).registered() == last_poll(events)
        },
    decreases events.len(),
{
    if events.len() > 0 {
        lemma_open_cell_holds_latest_poll(events.drop_last());
        lemma_run_keeps_wf(Snapshot::<T>::fresh(), events.drop_last());
    }
}

/// No wake is lost. Take any run of events on a fresh cell that leaves it
/// open, and let the producer then settle it, by a resolve or by going: the
/// handle that the settlement finds in the cell is that of the latest poll,
/// the cell is closed, and from there on no poll suspends, whatever else
/// happens.
pub proof fn lemma_no_lost_wake<T>(
    events: Seq<Event<T>>,
    settle: Event<T>,
    later: Seq<Event<T>>,
)
    requires
        !(settle is Poll),
        Snapshot::<T>::fresh().run(events).is_open(),
    ensures
        Snapshot::<T>::fresh().run(events).registered() == last_poll(events),
        !Snapshot::<T>::fresh().run(events).step(settle).is_open(),
        !(Snapshot::<T>::fresh().run(events).step(settle).run(later).poll_result() is Pending),
{
    let cell = Snapshot::<T>::fresh().run(events);
    lemma_open_cell_holds_latest_poll(events);
    lemma_waker_state_moves_forward(cell.step(settle), later);
}

/// A poll of a settled cell never suspends: it returns a value or the error.
pub proof fn lemma_settled_poll_is_ready<T>(cell: Snapshot<T>, events: Seq<Event<T>>)
    requires
        !cell.is_open(),
    ensures
        !(cell.run(events).poll_result() is Pending),
{
    lemma_waker_state_moves_forward(cell, events);
}

} // verus!
