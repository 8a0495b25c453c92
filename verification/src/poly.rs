//! A promise with any number of consumers, which all see the same value.
//!
//! [`Inner`] is the cell: the value under shared ownership, and the list of
//! suspension handles in the order in which they were registered.
//! [`Snapshot`] is the cell as the contracts see it, and its spec functions are
//! the steps of the state machine. [`Producer`] and [`Consumer`] are the
//! handles on a cell behind its lock; a consumer can be cloned.
use crate::sync::{enter, guarded, new_mutex, wake};
use crate::{Error, Phase, Promise, WakerState};
use std::sync::{Arc, Mutex};
use std::task::{Poll, Waker};
use vstd::prelude::*;

verus! {

/// A cell as a value: the value it was resolved with, and who waits.
pub struct Snapshot<T> {
    /// The value, from the moment the producer resolves.
    pub value: Option<T>,
    /// The suspension handles of the consumers that wait, oldest first, or
    /// why there are none.
    pub waker: WakerState<Seq<Waker>>,
}

/// One step on a cell, by any handle.
pub enum Event<T> {
    /// A consumer polls, and would be woken through this handle.
    Poll(Waker),
    /// The producer resolves with this value.
    Resolve(T),
    /// The producer goes away.
    Abandon,
}

impl<T> Snapshot<T> {
    /// The cell that a new pair shares: no value, nobody waiting.
    pub open spec fn fresh() -> Self {
        Snapshot { value: None, waker: WakerState::Fresh }
    }

    /// A value is only ever found in a tainted cell, and a cell that counts
    /// as registered holds at least one handle.
    pub open spec fn wf(self) -> bool {
        &&& self.value is Some ==> self.waker is Tainted
        &&& self.waker matches WakerState::Registered(waiting) ==> waiting.len() > 0
    }

    /// Whether the producer can still settle the cell.
    pub open spec fn is_open(self) -> bool {
        !(self.waker is Tainted)
    }

    /// How far the cell has come.
    pub open spec fn phase(self) -> Phase {
        if self.value is Some {
            Phase::ValueSet
        } else if self.waker is Tainted {
            Phase::Abandoned
        } else {
            Phase::Empty
        }
    }

    /// The suspension handles that wait in the cell, oldest first. They are
    /// what a settlement hands out to be woken.
    pub open spec fn registered(self) -> Seq<Waker> {
        match self.waker {
            WakerState::Registered(waiting) => waiting,
            _ => Seq::empty(),
        }
    }

    /// The cell after the producer resolves with `value`: an open cell takes
    /// the value and is tainted, any other stays as it is.
    pub open spec fn after_resolve(self, value: T) -> Self {
        if self.is_open() {
            Snapshot { value: Some(value), waker: WakerState::Tainted }
        } else {
            self
        }
    }

    /// The cell after the producer has gone: tainted, its value untouched.
    pub open spec fn after_abandon(self) -> Self {
        Snapshot { value: self.value, waker: WakerState::Tainted }
    }

    /// What a poll of this cell returns: the value if there is one, the error
    /// if the cell is tainted without one, and otherwise nothing yet.
    pub open spec fn poll_result(self) -> Poll<Result<T, Error>> {
        match self.value {
            Some(value) => Poll::Ready(Ok(value)),
            None => if self.waker is Tainted {
                Poll::Ready(Err(Error::ProducerDropped))
            } else {
                Poll::Pending
            },
        }
    }

    /// The cell after a poll with `waker`: where the poll suspends, `waker`
    /// joins the handles that wait, as the last of them. A poll that returns
    /// leaves the cell as it is.
    pub open spec fn after_poll(self, waker: Waker) -> Self {
        if self.poll_result() is Pending {
            Snapshot {
                value: self.value,
                waker: WakerState::Registered(self.registered().push(waker)),
            }
        } else {
            self
        }
    }

    /// The cell after one event.
    pub open spec fn step(self, event: Event<T>) -> Self {
        match event {
            Event::Poll(waker) => self.after_poll(waker),
            Event::Resolve(value) => self.after_resolve(value),
            Event::Abandon => self.after_abandon(),
        }
    }

    /// The cell after a run of events, first to last.
    pub open spec fn run(self, events: Seq<Event<T>>) -> Self
        decreases events.len(),
    {
        if events.len() == 0 {
            self
        } else {
            self.run(events.drop_last()).step(events.last())
        }
    }

    /// How often a run of events writes a value into the cell: once for each
    /// `Resolve` that finds the cell open.
    pub open spec fn writes(self, events: Seq<Event<T>>) -> nat
        decreases events.len(),
    {
        if events.len() == 0 {
            0
        } else {
            let before = self.run(events.drop_last());
            let written: nat = if events.last() is Resolve && before.is_open() {
                1
            } else {
                0
            };
            self.writes(events.drop_last()) + written
        }
    }
}

/// The handles of the polls among `events`, in their order.
pub open spec fn polls<T>(events: Seq<Event<T>>) -> Seq<Waker>
    decreases events.len(),
{
    if events.len() == 0 {
        Seq::empty()
    } else {
        match events.last() {
            Event::Poll(waker) => polls(events.drop_last()).push(waker),
            _ => polls(events.drop_last()),
        }
    }
}

/// One poll for each of `wakers`, in their order.
pub open spec fn polls_with<T>(wakers: Seq<Waker>) -> Seq<Event<T>> {
    Seq::new(wakers.len(), |i: int| Event::Poll(wakers[i]))
}

/// What a poll returns, with the value itself in place of the shared pointer
/// to it.
pub open spec fn pointee<T>(polled: Poll<Result<Arc<T>, Error>>) -> Poll<Result<T, Error>> {
    match polled {
        Poll::Ready(Ok(shared)) => Poll::Ready(Ok(*shared)),
        Poll::Ready(Err(error)) => Poll::Ready(Err(error)),
        Poll::Pending => Poll::Pending,
    }
}

/// The cell that a producer and its consumers share.
#[derive(Debug)]
pub struct Inner<T> {
    value: Option<Arc<T>>,
    waker: WakerState<Vec<Waker>>,
}

impl<T> View for Inner<T> {
    type V = Snapshot<T>;

    closed spec fn view(&self) -> Snapshot<T> {
        Snapshot {
            value: match self.value {
                Some(shared) => Some(*shared),
                None => None,
            },
            waker: match self.waker {
                WakerState::Fresh => WakerState::Fresh,
                WakerState::Registered(waiting) => WakerState::Registered(waiting@),
                WakerState::Tainted => WakerState::Tainted,
            },
        }
    }
}

impl<T> Inner<T> {
    #[verifier::type_invariant]
    spec fn well_formed(&self) -> bool {
        self@.wf()
    }

    /// An empty cell with nobody waiting.
    pub fn new() -> (cell: Self)
        ensures
            cell@ == Snapshot::<T>::fresh(),
    {
        Inner { value: None, waker: WakerState::Fresh }
    }

    /// How far the cell has come.
    pub fn phase(&self) -> (phase: Phase)
        ensures
            phase == self@.phase(),
            self@.wf(),
    {
        proof {
            use_type_invariant(self);
        }
        match (&self.value, &self.waker) {
            (Some(_), _) => Phase::ValueSet,
            (None, WakerState::Tainted) => Phase::Abandoned,
            (None, _) => Phase::Empty,
        }
    }

    /// Resolves the cell. An open cell takes `value`, is tainted, and hands
    /// out the suspension handles that were registered, oldest first, for the
    /// caller to wake. A cell that was settled before is left as it is and
    /// gives `value` back.
    pub fn resolve(&mut self, value: T) -> (woken: Result<Vec<Waker>, T>)
        ensures
            final(self)@ == old(self)@.after_resolve(value),
            final(self)@.wf(),
            match woken {
                Ok(wakers) => old(self)@.is_open() && wakers@ == old(self)@.registered(),
                Err(back) => !old(self)@.is_open() && back == value,
            },
    {
        proof {
            use_type_invariant(&*self);
        }
        if let WakerState::Tainted = &self.waker {
            return Err(value);
        }
        let mut previous = WakerState::Tainted;
        std::mem::swap(&mut self.waker, &mut previous);
        self.value = Some(Arc::new(value));
        match previous {
            WakerState::Registered(wakers) => Ok(wakers),
            _ => Ok(Vec::new()),
        }
    }

    /// Taints the cell for a producer that goes away, and hands out the
    /// suspension handles that were registered, oldest first. A value that the
    /// cell holds stays.
    pub fn abandon(&mut self) -> (woken: Vec<Waker>)
        ensures
            final(self)@ == old(self)@.after_abandon(),
            final(self)@.wf(),
            woken@ == old(self)@.registered(),
    {
        let mut previous = WakerState::Tainted;
        std::mem::swap(&mut self.waker, &mut previous);
        match previous {
            WakerState::Registered(wakers) => wakers,
            _ => Vec::new(),
        }
    }

    /// Polls the cell. A value in the cell is returned, shared, and stays for
    /// the next poll. A tainted cell without a value reports that the producer
    /// is gone. Otherwise `waker` is added behind the handles that wait, and
    /// the poll suspends.
    pub fn poll(&mut self, waker: Waker) -> (polled: Poll<Result<Arc<T>, Error>>)
        ensures
            pointee(polled) == old(self)@.poll_result(),
            final(self)@ == old(self)@.after_poll(waker),
            final(self)@.wf(),
    {
        proof {
            use_type_invariant(&*self);
        }
        if let Some(shared) = &self.value {
            return Poll::Ready(Ok(shared.clone()));
        }
        if let WakerState::Tainted = &self.waker {
            return Poll::Ready(Err(Error::ProducerDropped));
        }
        let mut previous = WakerState::Fresh;
        std::mem::swap(&mut self.waker, &mut previous);
        let mut waiting = match previous {
            WakerState::Registered(wakers) => wakers,
            _ => Vec::new(),
        };
        waiting.push(waker);
        self.waker = WakerState::Registered(waiting);
        Poll::Pending
    }
}

/// Wakes each of `wakers`, first to last.
fn wake_all(wakers: Vec<Waker>) {
    for waker in wakers {
        wake(waker);
    }
}

/// The end of a promise that settles it. There is one producer to a cell, and
/// settling uses it up. A producer that is merely dropped wakes nobody: the
/// one who gives up a promise calls [`Producer::abandon`].
#[derive(Debug)]
#[verifier::reject_recursive_types(T)]
pub struct Producer<T> {
    promise: Arc<Mutex<Inner<T>>>,
}

/// An end of a promise that waits for the value. A consumer can be cloned, and
/// all clones wait on the same cell.
#[verifier::reject_recursive_types(T)]
pub struct Consumer<T> {
    promise: Arc<Mutex<Inner<T>>>,
}

impl<T> Producer<T> {
    /// The lock that this producer shares with its consumers.
    pub closed spec fn cell(&self) -> Mutex<Inner<T>> {
        *self.promise
    }

    /// Gives the promise up: the cell is tainted, and the consumers that wait
    /// are woken, oldest first, to find that the producer is gone.
    pub fn abandon(self) {
        let woken = {
            let mut guard = enter(&self.promise);
            guarded(&mut guard).abandon()
        };
        wake_all(woken);
    }
}

impl<T> Promise<T> for Producer<T> {
    type Waiter = Consumer<T>;

    open spec fn paired(&self, waiter: &Consumer<T>) -> bool {
        self.cell() == waiter.cell()
    }

    /// Puts `value` into the cell and, once the lock is released, wakes the
    /// consumers that wait, oldest first.
    fn resolve(self, value: T) {
        let woken = {
            let mut guard = enter(&self.promise);
            guarded(&mut guard).resolve(value)
        };
        if let Ok(wakers) = woken {
            wake_all(wakers);
        }
    }

    fn new() -> (ends: (Self, Consumer<T>)) {
        let promise = Arc::new(new_mutex(Inner::new()));
        let consumer = Consumer { promise: promise.clone() };
        (Producer { promise }, consumer)
    }
}

impl<T> Consumer<T> {
    /// The lock that this consumer shares with its producer and its clones.
    pub closed spec fn cell(&self) -> Mutex<Inner<T>> {
        *self.promise
    }

    /// Takes one [`Inner::poll`] step on the shared cell, under its lock. What
    /// comes back depends on what the producer has done by then.
    pub fn poll(&self, waker: Waker) -> (polled: Poll<Result<Arc<T>, Error>>) {
        let mut guard = enter(&self.promise);
        guarded(&mut guard).poll(waker)
    }
}

impl<T> Clone for Consumer<T> {
    /// Another consumer of the same cell.
    fn clone(&self) -> (twin: Self)
        ensures
            twin.cell() == self.cell(),
    {
        Consumer { promise: self.promise.clone() }
    }
}

/// A step takes a well-formed cell to a well-formed cell.
pub proof fn lemma_step_keeps_wf<T>(cell: Snapshot<T>, event: Event<T>)
    requires
        cell.wf(),
    ensures
        cell.step(event).wf(),
{
}

/// A run of steps takes a well-formed cell to a well-formed cell: wherever a
/// value is found, the cell is tainted.
pub proof fn lemma_run_keeps_wf<T>(cell: Snapshot<T>, events: Seq<Event<T>>)
    requires
        cell.wf(),
    ensures
        cell.run(events).wf(),
    decreases events.len(),
{
    if events.len() > 0 {
        lemma_run_keeps_wf(cell, events.drop_last());
    }
}

/// The state of the suspension handles only moves forward: a cell that is no
/// longer fresh never is fresh again, and a tainted cell stays tainted.
pub proof fn lemma_waker_state_moves_forward<T>(cell: Snapshot<T>, events: Seq<Event<T>>)
    ensures
        !(cell.waker is Fresh) ==> !(cell.run(events).waker is Fresh),
        !cell.is_open() ==> !cell.run(events).is_open(),
    decreases events.len(),
{
    if events.len() > 0 {
        lemma_waker_state_moves_forward(cell, events.drop_last());
    }
}

/// The phases of a cell and the steps between them. An empty cell stays empty
/// under a poll, gets its value from a resolve and is abandoned when the
/// producer goes. From a cell with a value, and from an abandoned one, no
/// step leads anywhere else.
pub proof fn lemma_phase_step<T>(cell: Snapshot<T>, event: Event<T>)
    requires
        cell.wf(),
    ensures
        cell.step(event).phase() == match cell.phase() {
            Phase::Empty => match event {
                Event::Poll(_) => Phase::Empty,
                Event::Resolve(_) => Phase::ValueSet,
                Event::Abandon => Phase::Abandoned,
            },
            Phase::ValueSet => Phase::ValueSet,
            Phase::Abandoned => Phase::Abandoned,
        },
{
}

/// A phase other than `Empty` is final: a cell that was resolved, or
/// abandoned, is in that same phase after any run of events.
pub proof fn lemma_phase_is_final<T>(cell: Snapshot<T>, events: Seq<Event<T>>)
    requires
        cell.wf(),
        cell.phase() != Phase::Empty,
    ensures
        cell.run(events).phase() == cell.phase(),
    decreases events.len(),
{
    if events.len() > 0 {
        lemma_phase_is_final(cell, events.drop_last());
        lemma_run_keeps_wf(cell, events.drop_last());
        lemma_phase_step(cell.run(events.drop_last()), events.last());
    }
}

/// A settled cell does not change any more, whatever happens to it, and
/// holds no handle to wake.
pub proof fn lemma_settled_cell_is_final<T>(cell: Snapshot<T>, event: Event<T>)
    requires
        !cell.is_open(),
    ensures
        cell.step(event) == cell,
        cell.registered() =~= Seq::<Waker>::empty(),
{
}

/// A cell is written at most once: after a first resolve, a second one
/// changes nothing, whatever its value.
pub proof fn lemma_second_resolve_is_refused<T>(cell: Snapshot<T>, first: T, second: T)
    ensures
        !cell.after_resolve(first).is_open(),
        cell.after_resolve(first).after_resolve(second) == cell.after_resolve(first),
{
}

/// A cell is written at most once in any run of events, and never once it is
/// tainted.
pub proof fn lemma_write_once<T>(cell: Snapshot<T>, events: Seq<Event<T>>)
    ensures
        cell.writes(events) <= 1,
        !cell.is_open() ==> cell.writes(events) == 0,
        cell.writes(events) == 1 ==> !cell.run(events).is_open(),
    decreases events.len(),
{
    if events.len() > 0 {
        lemma_write_once(cell, events.drop_last());
        lemma_waker_state_moves_forward(cell, events.drop_last());
    }
}

/// Every consumer sees the same value at any time: once a cell holds a value,
/// it holds that value after any run of events, and every poll returns it.
pub proof fn lemma_value_is_replayed<T>(cell: Snapshot<T>, value: T, events: Seq<Event<T>>)
    requires
        cell.wf(),
        cell.value == Some(value),
    ensures
        cell.run(events) == cell,
        cell.run(events).poll_result() == Poll::Ready(Ok::<T, Error>(value)),
    decreases events.len(),
{
    if events.len() > 0 {
        lemma_value_is_replayed(cell, value, events.drop_last());
    }
}

/// An abandoned cell stays abandoned: after any run of events, every poll
/// returns the error.
pub proof fn lemma_abandonment_is_final<T>(cell: Snapshot<T>, events: Seq<Event<T>>)
    requires
        cell.phase() == Phase::Abandoned,
    ensures
        cell.run(events) == cell,
        cell.run(events).poll_result() == Poll::Ready(
            Err::<T, Error>(Error::ProducerDropped),
        ),
    decreases events.len(),
{
    if events.len() > 0 {
        lemma_abandonment_is_final(cell, events.drop_last());
    }
}

/// Resolve, then poll: the poll returns the value at once, and registers
/// nothing.
pub proof fn lemma_resolve_then_poll<T>(cell: Snapshot<T>, value: T, waker: Waker)
    requires
        cell.is_open(),
    ensures
        cell.after_resolve(value).poll_result() == Poll::Ready(Ok::<T, Error>(value)),
        cell.after_resolve(value).after_poll(waker) == cell.after_resolve(value),
{
}

/// Poll, then resolve: the poll suspends and leaves its handle in the cell,
/// behind those that waited before, for the resolve to hand out; and after the
/// resolve the next poll returns the value.
pub proof fn lemma_poll_then_resolve<T>(cell: Snapshot<T>, waker: Waker, value: T)
    requires
        cell.wf(),
        cell.is_open(),
    ensures
        cell.poll_result() is Pending,
        cell.after_poll(waker).is_open(),
        cell.after_poll(waker).registered() == cell.registered().push(waker),
        cell.after_poll(waker).after_resolve(value).poll_result() == Poll::Ready(
            Ok::<T, Error>(value),
        ),
{
}

/// The producer goes, then poll: the poll returns the error at once, and
/// registers nothing.
pub proof fn lemma_abandon_then_poll<T>(cell: Snapshot<T>, waker: Waker)
    requires
        cell.wf(),
        cell.is_open(),
    ensures
        cell.after_abandon().poll_result() == Poll::Ready(
            Err::<T, Error>(Error::ProducerDropped),
        ),
        cell.after_abandon().after_poll(waker) == cell.after_abandon(),
{
}

/// Poll, then the producer goes: the poll suspends and leaves its handle in
/// the cell, behind those that waited before, for the producer's going to hand
/// out; and after that the next poll returns the error.
pub proof fn lemma_poll_then_abandon<T>(cell: Snapshot<T>, waker: Waker)
    requires
        cell.wf(),
        cell.is_open(),
    ensures
        cell.poll_result() is Pending,
        cell.after_poll(waker).is_open(),
        cell.after_poll(waker).registered() == cell.registered().push(waker),
        cell.after_poll(waker).after_abandon().poll_result() == Poll::Ready(
            Err::<T, Error>(Error::ProducerDropped),
        ),
{
}

/// Polls of an open cell add up: after one poll for each of `wakers`, the
/// cell is still open and holds those handles, in their order, behind the
/// ones it held before.
pub proof fn lemma_polls_register_in_order<T>(cell: Snapshot<T>, wakers: Seq<Waker>)
    requires
        cell.wf(),
        cell.is_open(),
    ensures
        cell.run(polls_with::<T>(wakers)).is_open(),
        cell.run(polls_with::<T>(wakers)).wf(),
        cell.run(polls_with::<T>(wakers)).registered() == cell.registered() + wakers,
    decreases wakers.len(),
{
    let events = polls_with::<T>(wakers);
    if wakers.len() > 0 {
        let shorter = wakers.drop_last();
        assert(events.drop_last() =~= polls_with::<T>(shorter));
        lemma_polls_register_in_order(cell, shorter);
    }
}

/// Fan-out. Let any number of consumers poll a fresh cell, each with its own
/// handle: all of them suspend. The one resolve then finds every one of those
/// handles in the cell, in the order of the polls, and from there on each
/// consumer that polls, at any time and however often, is given the same
/// value.
pub proof fn lemma_fan_out<T>(wakers: Seq<Waker>, value: T, later: Seq<Event<T>>)
    ensures
        forall|n: int|
            0 <= n <= wakers.len() ==> #[trigger] Snapshot::<T>::fresh().run(
                polls_with::<T>(wakers.take(n)),
            ).poll_result() is Pending,
        Snapshot::<T>::fresh().run(polls_with::<T>(wakers)).is_open(),
        Snapshot::<T>::fresh().run(polls_with::<T>(wakers)).registered() == wakers,
        Snapshot::<T>::fresh().run(polls_with::<T>(wakers)).after_resolve(value).run(
            later,
        ).poll_result() == Poll::Ready(Ok::<T, Error>(value)),
{
    let fresh = Snapshot::<T>::fresh();
    assert forall|n: int| 0 <= n <= wakers.len() implies #[trigger] fresh.run(
        polls_with::<T>(wakers.take(n)),
    ).poll_result() is Pending by {
        lemma_polls_register_in_order(fresh, wakers.take(n));
    }
    lemma_polls_register_in_order(fresh, wakers);
    lemma_value_is_replayed(fresh.run(polls_with::<T>(wakers)).after_resolve(value), value, later);
}

/// While a cell that started fresh is open, every poll so far has suspended,
/// and the cell holds the handle of each of them, in the order of the polls.
pub proof fn lemma_open_cell_holds_every_poll<T>(events: Seq<Event<T>>)
    ensures
        Snapshot::<T>::fresh().run(events).is_open() ==> {
            &&& Snapshot::<T>::fresh().run(events).poll_result() is Pending
            &&& Snapshot::<T>::fresh().run(events).registered() == polls(events)
        },
    decreases events.len(),
{
    if events.len() > 0 {
        lemma_open_cell_holds_every_poll(events.drop_last());
        lemma_run_keeps_wf(Snapshot::<T>::fresh(), events.drop_last());
        lemma_waker_state_moves_forward(Snapshot::<T>::fresh(), events.drop_last());
    }
}

/// No wake is lost. Take any run of events on a fresh cell that leaves it
/// open, and let the producer then settle it, by a resolve or by going: the
/// handles that the settlement finds in the cell are those of all the polls so
/// far, the cell is closed, and from there on no poll suspends, whatever else
/// happens.
pub proof fn lemma_no_lost_wake<T>(
    events: Seq<Event<T>>,
    settle: Event<T>,
    later: Seq<Event<T>>,
)
    requires
        !(settle is Poll),
        Snapshot::<T>::fresh().run(events).is_open(),
    ensures
        Snapshot::<T>::fresh().run(events).registered() == polls(events),
        !Snapshot::<T>::fresh().run(events).step(settle).is_open(),
        !(Snapshot::<T>::fresh().run(events).step(settle).run(later).poll_result() is Pending),
{
    let cell = Snapshot::<T>::fresh().run(events);
    lemma_open_cell_holds_every_poll(events);
    lemma_waker_state_moves_forward(cell.step(settle), later);
}

/// A poll of a settled cell never suspends: it returns a value or the error.
pub proof fn lemma_settled_poll_is_ready<T>(cell: Snapshot<T>, events: Seq<Event<T>>)
    requires
        !cell.is_open(),
    ensures
        !(cell.run(events).poll_result() is Pending),
{
    lemma_waker_state_moves_forward(cell, events);
}

} // verus!
