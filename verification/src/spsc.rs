//! Bounded rings between one producer and one consumer, for producers that must
//! not wait.
//!
//! The ring keeps its items in a `crossbeam_queue::ArrayQueue` and the waker of
//! a waiting consumer in a `futures_util::task::AtomicWaker`, so its producer
//! neither waits nor allocates.
//!
//! The two halves may be on different threads. Each access to the queue, to the
//! flag that says whether the producer has gone, and to the waker is then a step
//! of its own, between which the other half may act. A poll of the consumer is
//! made of several of them; [`PopStep`] is its order of steps, which holds
//! between threads, and [`SpscConsumer::poll_pop`] goes through them on a ring
//! that it has to itself.
use std::marker::PhantomData;
use std::task::Waker;

use futures_util::task::AtomicWaker;
use vstd::prelude::*;

use crate::poll::Poll;
use crate::ring_queue;
use crate::ring_queue::RingQueue;

verus! {

/// The steps of a poll for the next item. The flag is looked at twice, and after
/// it was seen set the queue is looked at once more: the producer may have put
/// in a last item just before it went.
#[derive(Debug, Clone, Copy, PartialEq, Eq, Structural)]
pub enum PopStep {
    /// Take an item out of the queue.
    FirstPop,
    /// See whether the producer has gone.
    FirstCheck,
    /// Leave a waker behind.
    Register,
    /// Take an item out of the queue.
    SecondPop,
    /// See whether the producer has gone.
    SecondCheck,
    /// Take the last item out of the queue, if there is one.
    DrainPop,
}

/// What comes after a step of a poll.
#[derive(Debug, PartialEq, Eq)]
pub enum PopNext<T> {
    /// Another step.
    Continue(PopStep),
    /// The outcome of the poll.
    Finished(Poll<Option<T>>),
}

impl PopStep {
    /// Whether the step takes an item out of the queue.
    pub open spec fn pops(self) -> bool {
        self is FirstPop || self is SecondPop || self is DrainPop
    }

    /// Whether the step sees whether the producer has gone.
    pub open spec fn checks(self) -> bool {
        self is FirstCheck || self is SecondCheck
    }

    /// What comes after an attempt to take an item.
    pub open spec fn popped<T>(self, item: Option<T>) -> PopNext<T> {
        match (self, item) {
            (PopStep::FirstPop, None) => PopNext::Continue(PopStep::FirstCheck),
            (PopStep::SecondPop, None) => PopNext::Continue(PopStep::SecondCheck),
            (_, _) => PopNext::Finished(Poll::Ready(item)),
        }
    }

    /// What comes after it was seen whether the producer has gone.
    pub open spec fn checked<T>(self, closed: bool) -> PopNext<T> {
        if closed {
            PopNext::Continue(PopStep::DrainPop)
        } else if self is FirstCheck {
            PopNext::Continue(PopStep::Register)
        } else {
            PopNext::Finished(Poll::Pending)
        }
    }

    /// How many steps can still come, this one included.
    pub open spec fn steps_left(self) -> nat {
        match self {
            PopStep::FirstPop => 6,
            PopStep::FirstCheck => 5,
            PopStep::Register => 4,
            PopStep::SecondPop => 3,
            PopStep::SecondCheck => 2,
            PopStep::DrainPop => 1,
        }
    }

    /// What comes after an attempt to take an item.
    pub fn after_pop<T>(self, item: Option<T>) -> (next: PopNext<T>)
        requires
            self.pops(),
        ensures
            next == self.popped(item),
    {
        match self {
            PopStep::FirstPop => match item {
                Some(item) => PopNext::Finished(Poll::Ready(Some(item))),
                None => PopNext::Continue(PopStep::FirstCheck),
            },
            PopStep::SecondPop => match item {
                Some(item) => PopNext::Finished(Poll::Ready(Some(item))),
                None => PopNext::Continue(PopStep::SecondCheck),
            },
            _ => PopNext::Finished(Poll::Ready(item)),
        }
    }

    /// What comes after it was seen whether the producer has gone.
    pub fn after_check<T>(self, closed: bool) -> (next: PopNext<T>)
        requires
            self.checks(),
        ensures
            next == self.checked::<T>(closed),
    {
        if closed {
            return PopNext::Continue(PopStep::DrainPop);
        }
        match self {
            PopStep::FirstCheck => PopNext::Continue(PopStep::Register),
            _ => PopNext::Finished(Poll::Pending),
        }
    }

    /// What comes after a waker was left behind.
    pub fn after_register<T>(self) -> (next: PopNext<T>)
        requires
            self is Register,
        ensures
            next == PopNext::<T>::Continue(PopStep::SecondPop),
    {
        PopNext::Continue(PopStep::SecondPop)
    }
}

/// What the producer does in one step. It first changes the ring and then calls
/// the waiting consumer, so that no change goes unnoticed.
#[derive(Debug, Clone, Copy, PartialEq, Eq, Structural)]
pub enum PushStep {
    /// Put an item into the queue, if there is room.
    Push,
    /// Put an item into the queue in place of the oldest one, if it must be.
    Overwrite,
    /// Set the flag that the producer has gone.
    End,
    /// Take the waker that was left behind and wake it.
    Call,
}

impl PushStep {
    /// What comes after the step: a call after every change. A push that was not
    /// accepted changed nothing.
    pub open spec fn following(self, accepted: bool) -> Option<PushStep> {
        match self {
            PushStep::Push => if accepted {
                Some(PushStep::Call)
            } else {
                None
            },
            PushStep::Overwrite | PushStep::End => Some(PushStep::Call),
            PushStep::Call => None,
        }
    }

    /// What comes after the step, given whether the queue accepted the item
    /// where the step was a push.
    pub fn after(self, accepted: bool) -> (next: Option<PushStep>)
        ensures
            next == self.following(accepted),
    {
        match self {
            PushStep::Push => if accepted {
                Some(PushStep::Call)
            } else {
                None
            },
            PushStep::Overwrite | PushStep::End => Some(PushStep::Call),
            PushStep::Call => None,
        }
    }
}

/// What a ring is, as far as its users can tell.
#[verifier::ext_equal]
pub struct RingView<T> {
    /// Which ring this is. Its halves carry the same number, and nothing relates
    /// the numbers of rings that were made apart.
    pub id: int,
    /// The items that wait to be taken, the oldest first.
    pub items: Seq<T>,
    /// Whether the producer has gone.
    pub closed: bool,
    /// The waker that a waiting consumer left behind.
    pub parked: Option<Waker>,
    /// The most items that the ring may hold.
    pub capacity: nat,
}

impl<T> RingView<T> {
    /// What holds of every ring: some room, and no more items than fit.
    pub open spec fn wf(self) -> bool {
        0 < self.capacity && self.items.len() <= self.capacity
    }

    /// Whether there is no room.
    pub open spec fn full(self) -> bool {
        self.items.len() >= self.capacity
    }

    /// The oldest item.
    pub open spec fn front(self) -> Option<T> {
        if self.items.len() == 0 {
            None
        } else {
            Some(self.items[0])
        }
    }

    /// After the oldest item has been taken, if there is one.
    pub open spec fn popped(self) -> Self {
        RingView {
            items: if self.items.len() == 0 {
                self.items
            } else {
                self.items.drop_first()
            },
            ..self
        }
    }

    /// After an item has been put behind the others and the waiting consumer has
    /// been called.
    pub open spec fn appended(self, item: T) -> Self {
        RingView { items: self.items.push(item), parked: None, ..self }
    }

    /// After a push: a full ring stays as it is.
    pub open spec fn pushed(self, item: T) -> Self {
        if self.full() {
            self
        } else {
            self.appended(item)
        }
    }

    /// After a push that drops the oldest item where there is no room.
    pub open spec fn overwritten(self, item: T) -> Self {
        if self.full() {
            self.popped().appended(item)
        } else {
            self.appended(item)
        }
    }

    /// After the producer has gone and the waiting consumer has been called.
    pub open spec fn ended(self) -> Self {
        RingView { closed: true, parked: None, ..self }
    }

    /// With another waker left behind.
    pub open spec fn with_parked(self, parked: Option<Waker>) -> Self {
        RingView { parked, ..self }
    }

    /// Whether a poll with `waker` may make `after` of this ring and end with
    /// `outcome`.
    pub open spec fn polled(self, waker: Waker, after: Self, outcome: Poll<Option<T>>) -> bool {
        if self.items.len() > 0 {
            outcome == Poll::Ready(self.front()) && after == self.popped()
        } else if self.closed {
            outcome == Poll::Ready(None::<T>) && after == self
        } else {
            &&& outcome == Poll::<Option<T>>::Pending
            &&& after == self.with_parked(after.parked)
            &&& ring_queue::parks(self.parked, waker, after.parked)
        }
    }
}

/// What a push gives back.
pub struct RingPush<T> {
    /// The item where there was no room for it.
    pub result: Result<(), T>,
    /// The waker of the waiting consumer, to be woken.
    pub wake: Option<Waker>,
}

/// What a push that drops the oldest item gives back.
pub struct RingOverwrite<T> {
    /// The item that had to make room.
    pub displaced: Option<T>,
    /// The waker of the waiting consumer, to be woken.
    pub wake: Option<Waker>,
}

/// A bounded ring for at most `N` items.
#[verifier::reject_recursive_types(T)]
pub struct SpscRing<T, const N: usize> {
    queue: RingQueue<T>,
    producer_closed: bool,
    waker: AtomicWaker,
    id: Ghost<int>,
}

/// The half of a ring that puts items in.
pub struct SpscProducer<T, const N: usize> {
    ring: Ghost<int>,
    items: PhantomData<T>,
}

/// The half of a ring that takes items out.
pub struct SpscConsumer<T, const N: usize> {
    ring: Ghost<int>,
    items: PhantomData<T>,
}

/// A request for the next item of a ring.
pub struct PopFuture<'a, T, const N: usize> {
    consumer: &'a SpscConsumer<T, N>,
}

/// The items of a ring as a sequence of requests.
pub struct SpscConsumerStream<'a, T, const N: usize> {
    consumer: &'a SpscConsumer<T, N>,
}

impl<T, const N: usize> View for SpscRing<T, N> {
    type V = RingView<T>;

    closed spec fn view(&self) -> RingView<T> {
        RingView {
            id: self.id@,
            items: self.queue.items(),
            closed: self.producer_closed,
            parked: ring_queue::parked(self.waker),
            capacity: self.queue.capacity(),
        }
    }
}

impl<T, const N: usize> SpscRing<T, N> {
    /// Makes an empty ring of capacity `N` and its two halves.
    pub fn new() -> (made: (Self, SpscProducer<T, N>, SpscConsumer<T, N>))
        requires
            N > 0,
            ring_queue::allocatable::<T>(N as int),
        ensures
            made.0@ == (RingView {
                id: made.0@.id,
                items: Seq::<T>::empty(),
                closed: false,
                parked: None,
                capacity: N as nat,
            }),
            made.0@.wf(),
            made.1.ring() == made.0@.id,
            made.2.ring() == made.0@.id,
    {
        Self::with_capacity(N)
    }

    /// Makes an empty ring of a capacity up to `N` and its two halves.
    pub fn with_capacity(capacity: usize) -> (made: (Self, SpscProducer<T, N>, SpscConsumer<T, N>))
        requires
            0 < capacity <= N,
            ring_queue::allocatable::<T>(capacity as int),
        ensures
            made.0@ == (RingView {
                id: made.0@.id,
                items: Seq::<T>::empty(),
                closed: false,
                parked: None,
                capacity: capacity as nat,
            }),
            made.0@.wf(),
            made.1.ring() == made.0@.id,
            made.2.ring() == made.0@.id,
    {
        let id: Ghost<int> = Ghost(arbitrary());
        let ring = SpscRing {
            queue: RingQueue::queue_new(capacity),
            producer_closed: false,
            waker: ring_queue::cell_new(),
            id,
        };
        (
            ring,
            SpscProducer { ring: id, items: PhantomData },
            SpscConsumer { ring: id, items: PhantomData },
        )
    }

    /// Makes an empty ring and its two halves, or nothing where the capacity is
    /// zero, larger than `N`, or more than there can be a buffer for.
    pub fn try_with_capacity(capacity: usize) -> (made: Option<
        (Self, SpscProducer<T, N>, SpscConsumer<T, N>),
    >)
        ensures
            made is Some == (0 < capacity <= N && ring_queue::allocatable::<T>(capacity as int)),
            made matches Some(parts) ==> {
                &&& parts.0@ == (RingView {
                    id: parts.0@.id,
                    items: Seq::<T>::empty(),
                    closed: false,
                    parked: None,
                    capacity: capacity as nat,
                })
                &&& parts.0@.wf()
                &&& parts.1.ring() == parts.0@.id
                &&& parts.2.ring() == parts.0@.id
            },
    {
        if capacity > 0 && capacity <= N && ring_queue::can_allocate::<T>(capacity) {
            Some(Self::with_capacity(capacity))
        } else {
            None
        }
    }
}

impl<T, const N: usize> SpscProducer<T, N> {
    /// The ring that the half belongs to.
    pub closed spec fn ring(self) -> int {
        self.ring@
    }

    /// Goes on after a step that has changed the ring, or has not.
    fn go_on(ring: &mut SpscRing<T, N>, next: Option<PushStep>) -> (wake: Option<Waker>)
        ensures
            match next {
                Some(_) => wake == old(ring)@.parked && final(ring)@ == old(ring)@.with_parked(None),
                None => wake is None && final(ring)@ == old(ring)@,
            },
    {
        match next {
            Some(_) => ring_queue::cell_take(&mut ring.waker),
            None => None,
        }
    }

    /// Puts an item behind the others, if there is room.
    pub fn push(&self, ring: &mut SpscRing<T, N>, item: T) -> (push: RingPush<T>)
        requires
            old(ring)@.wf(),
            self.ring() == old(ring)@.id,
        ensures
            final(ring)@ == old(ring)@.pushed(item),
            final(ring)@.wf(),
            push.result == if old(ring)@.full() {
                Err::<(), T>(item)
            } else {
                Ok(())
            },
            push.wake == if old(ring)@.full() {
                None
            } else {
                old(ring)@.parked
            },
    {
        let result = ring.queue.queue_push(item);
        let wake = Self::go_on(ring, PushStep::Push.after(result.is_ok()));
        RingPush { result, wake }
    }

    /// Puts an item behind the others. Where there is no room, the oldest item
    /// comes out.
    pub fn push_overwrite(&self, ring: &mut SpscRing<T, N>, item: T) -> (push: RingOverwrite<T>)
        requires
            old(ring)@.wf(),
            self.ring() == old(ring)@.id,
        ensures
            final(ring)@ == old(ring)@.overwritten(item),
            final(ring)@.wf(),
            push.displaced == if old(ring)@.full() {
                old(ring)@.front()
            } else {
                None
            },
            push.wake == old(ring)@.parked,
    {
        let displaced = ring.queue.queue_force_push(item);
        let wake = Self::go_on(ring, PushStep::Overwrite.after(true));
        RingOverwrite { displaced, wake }
    }

    /// The number of items in the ring.
    pub fn buffered_count(&self, ring: &SpscRing<T, N>) -> (count: usize)
        requires
            self.ring() == ring@.id,
        ensures
            count == ring@.items.len(),
    {
        ring.queue.queue_len()
    }

    /// The most items that the ring may hold.
    pub fn capacity(&self, ring: &SpscRing<T, N>) -> (capacity: usize)
        requires
            self.ring() == ring@.id,
        ensures
            capacity == ring@.capacity,
    {
        ring.queue.queue_capacity()
    }

    /// Ends the producer. The waker of the waiting consumer comes out, to be
    /// woken.
    pub fn close(self, ring: &mut SpscRing<T, N>) -> (wake: Option<Waker>)
        requires
            self.ring() == old(ring)@.id,
        ensures
            final(ring)@ == old(ring)@.ended(),
            final(ring)@.closed,
            final(ring)@.items == old(ring)@.items,
            wake == old(ring)@.parked,
    {
        ring.producer_closed = true;
        Self::go_on(ring, PushStep::End.after(true))
    }
}

impl<T, const N: usize> SpscConsumer<T, N> {
    /// The ring that the half belongs to.
    pub closed spec fn ring(self) -> int {
        self.ring@
    }

    /// Takes the oldest item, without waiting.
    pub fn pop(&self, ring: &mut SpscRing<T, N>) -> (item: Option<T>)
        requires
            self.ring() == old(ring)@.id,
        ensures
            item == old(ring)@.front(),
            final(ring)@ == old(ring)@.popped(),
            old(ring)@.wf() ==> final(ring)@.wf(),
    {
        ring.queue.queue_pop()
    }

    /// Asks for the next item. Nothing happens before the request is polled.
    pub fn pop_async(&self) -> (request: PopFuture<'_, T, N>)
        ensures
            request.consumer() == self,
    {
        PopFuture { consumer: self }
    }

    /// Asks for all items to come. Nothing happens before the request is polled.
    pub fn stream(&self) -> (requests: SpscConsumerStream<'_, T, N>)
        ensures
            requests.consumer() == self,
    {
        SpscConsumerStream { consumer: self }
    }

    /// The number of items in the ring.
    pub fn buffered_count(&self, ring: &SpscRing<T, N>) -> (count: usize)
        requires
            self.ring() == ring@.id,
        ensures
            count == ring@.items.len(),
    {
        ring.queue.queue_len()
    }

    /// The most items that the ring may hold.
    pub fn capacity(&self, ring: &SpscRing<T, N>) -> (capacity: usize)
        requires
            self.ring() == ring@.id,
        ensures
            capacity == ring@.capacity,
    {
        ring.queue.queue_capacity()
    }

    /// Whether the producer has gone. Items may still be in the ring.
    pub fn is_closed(&self, ring: &SpscRing<T, N>) -> (closed: bool)
        requires
            self.ring() == ring@.id,
        ensures
            closed == ring@.closed,
    {
        ring.producer_closed
    }

    /// One poll for the next item, step by step.
    pub fn poll_pop(&self, ring: &mut SpscRing<T, N>, waker: &Waker) -> (outcome: Poll<Option<T>>)
        requires
            self.ring() == old(ring)@.id,
        ensures
            old(ring)@.polled(*waker, final(ring)@, outcome),
            old(ring)@.wf() ==> final(ring)@.wf(),
    {
        let mut step = PopStep::FirstPop;
        loop
            invariant
                self.ring() == old(ring)@.id,
                step is FirstPop || step is FirstCheck || step is Register ==> ring@ == old(ring)@,
                !(step is FirstPop) ==> old(ring)@.items.len() == 0,
                step is Register || step is SecondPop || step is SecondCheck ==> !old(ring)@.closed,
                step is SecondPop || step is SecondCheck ==> ring@ == old(ring)@.with_parked(
                    ring@.parked,
                ) && ring_queue::parks(old(ring)@.parked, *waker, ring@.parked),
                step is DrainPop ==> old(ring)@.closed && ring@ == old(ring)@,
            decreases step.steps_left(),
        {
            let next: PopNext<T> = match step {
                PopStep::FirstPop | PopStep::SecondPop | PopStep::DrainPop => {
                    step.after_pop(self.pop(ring))
                },
                PopStep::FirstCheck | PopStep::SecondCheck => {
                    step.after_check(self.is_closed(ring))
                },
                PopStep::Register => {
                    ring_queue::cell_register(&mut ring.waker, waker);
                    step.after_register()
                },
            };
            match next {
                PopNext::Continue(following) => {
                    step = following;
                },
                PopNext::Finished(outcome) => {
                    return outcome;
                },
            }
        }
    }
}

impl<'a, T, const N: usize> PopFuture<'a, T, N> {
    /// The half that asks.
    pub closed spec fn consumer(self) -> &'a SpscConsumer<T, N> {
        self.consumer
    }

    /// One poll of the request.
    pub fn poll(&self, ring: &mut SpscRing<T, N>, waker: &Waker) -> (outcome: Poll<Option<T>>)
        requires
            self.consumer().ring() == old(ring)@.id,
        ensures
            old(ring)@.polled(*waker, final(ring)@, outcome),
            old(ring)@.wf() ==> final(ring)@.wf(),
    {
        self.consumer.poll_pop(ring, waker)
    }
}

impl<'a, T, const N: usize> SpscConsumerStream<'a, T, N> {
    /// The half that asks.
    pub closed spec fn consumer(self) -> &'a SpscConsumer<T, N> {
        self.consumer
    }

    /// One poll for the next item.
    pub fn poll_next(&self, ring: &mut SpscRing<T, N>, waker: &Waker) -> (outcome: Poll<Option<T>>)
        requires
            self.consumer().ring() == old(ring)@.id,
        ensures
            old(ring)@.polled(*waker, final(ring)@, outcome),
            old(ring)@.wf() ==> final(ring)@.wf(),
    {
        self.consumer.poll_pop(ring, waker)
    }
}

} // verus!
