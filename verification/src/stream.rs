//! Bounded streams between callbacks and polling consumers.
//!
//! A stream holds at most `capacity` items. [`AsyncStreamSender::push`] never
//! waits: on a full buffer it drops the oldest item.
//! [`AsyncStreamSender::push_or_block`] loses nothing: on a full buffer it asks
//! the producer to wait. A consumer that finds the buffer empty leaves its
//! waker behind, and the next push, or the end of the last sender, hands every
//! waker that was left behind to the producer to be woken.
//!
//! Each operation here is one critical section on the state that the consumer
//! and the producers share, so a run of any number of threads is a sequence of
//! these operations. What has to happen outside the critical section is in the
//! result: wakers to wake or to drop, items to drop, and a [`CapacitySignal`]
//! for the producers that wait for room.
use std::collections::VecDeque;
use std::marker::PhantomData;
use std::task::Waker;

use vstd::prelude::*;

use crate::poll::Poll;

verus! {

/// The waiter number of a consumer that polls the stream itself and not a
/// [`NextItem`].
pub const STREAM_WAITER: u64 = 0;

/// What to tell the producers that wait for room.
#[derive(Debug, Clone, Copy, PartialEq, Eq, Structural)]
pub enum CapacitySignal {
    /// Nothing: no room was made.
    Silent,
    /// One slot came free: one producer may go on.
    NotifyOne,
    /// Every waiting producer is to look again.
    NotifyAll,
}

/// Whether some entry carries this waiter number.
pub open spec fn registered(waiters: Seq<(u64, Waker)>, id: u64) -> bool {
    exists|i: int| 0 <= i < waiters.len() && (#[trigger] waiters[i]).0 == id
}

/// Where the entry with this waiter number stands, if there is one.
pub open spec fn position(waiters: Seq<(u64, Waker)>, id: u64) -> int {
    choose|i: int| 0 <= i < waiters.len() && (#[trigger] waiters[i]).0 == id
}

/// Whether no two entries carry the same waiter number.
pub open spec fn distinct(waiters: Seq<(u64, Waker)>) -> bool {
    forall|i: int, j: int|
        0 <= i < j < waiters.len() ==> (#[trigger] waiters[i]).0 != (#[trigger] waiters[j]).0
}

/// The waker that a waiter left behind, if it left one.
pub open spec fn waker_of(waiters: Seq<(u64, Waker)>, waiter: Option<u64>) -> Option<Waker> {
    match waiter {
        Some(id) => if registered(waiters, id) {
            Some(waiters[position(waiters, id)].1)
        } else {
            None
        },
        None => None,
    }
}

/// The entries without that of the given waiter: the last entry takes its
/// place.
pub open spec fn removed(waiters: Seq<(u64, Waker)>, waiter: Option<u64>) -> Seq<(u64, Waker)> {
    match waiter {
        Some(id) => if registered(waiters, id) {
            waiters.update(position(waiters, id), waiters.last()).drop_last()
        } else {
            waiters
        },
        None => waiters,
    }
}

/// The entries after a waiter has left a waker behind. An entry that the waiter
/// has already is kept where its waker wakes the same task, else its waker is
/// replaced.
pub open spec fn entered(
    waiters: Seq<(u64, Waker)>,
    id: u64,
    same: bool,
    waker: Waker,
) -> Seq<(u64, Waker)> {
    if !registered(waiters, id) {
        waiters.push((id, waker))
    } else if same {
        waiters
    } else {
        waiters.update(position(waiters, id), (id, waker))
    }
}

/// The waiter number that follows: zero is left out.
pub open spec fn number_after(id: u64) -> u64 {
    if id == u64::MAX {
        1
    } else {
        (id + 1) as u64
    }
}

/// What a stream is, as far as its users can tell.
#[verifier::ext_equal]
pub struct StreamView<T> {
    /// Which stream this is. Its senders and its requests carry the same number,
    /// and nothing relates the numbers of streams that were made apart.
    pub id: int,
    /// The items that wait to be taken, the oldest first.
    pub buffer: Seq<T>,
    /// The wakers that waiting consumers left behind, with their numbers.
    pub waiters: Seq<(u64, Waker)>,
    /// The number that the next waiter gets.
    pub next_waiter: u64,
    /// Whether every sender has gone.
    pub closed: bool,
    /// Whether the consumer has gone.
    pub consumer_gone: bool,
    /// The number of senders.
    pub sender_count: nat,
    /// The most items that the buffer may hold.
    pub capacity: nat,
}

impl<T> StreamView<T> {
    /// What holds of every stream between two operations. Beside the bound on
    /// the buffer, a consumer waits only where there is nothing for it: the
    /// buffer is empty and more may come.
    pub open spec fn wf(self) -> bool {
        &&& 0 < self.capacity <= usize::MAX
        &&& self.buffer.len() <= self.capacity
        &&& self.sender_count <= usize::MAX
        &&& self.closed == (self.sender_count == 0)
        &&& distinct(self.waiters)
        &&& self.next_waiter != STREAM_WAITER
        &&& self.waiters.len() > 0 ==> self.buffer.len() == 0 && !self.closed
    }

    /// Whether the buffer has no room.
    pub open spec fn full(self) -> bool {
        self.buffer.len() >= self.capacity
    }

    /// Whether a producer that must not lose its item has to wait.
    pub open spec fn must_wait(self) -> bool {
        !self.consumer_gone && self.full()
    }

    /// The oldest item.
    pub open spec fn front(self) -> Option<T> {
        if self.buffer.len() == 0 {
            None
        } else {
            Some(self.buffer[0])
        }
    }

    /// The item that a push drops.
    pub open spec fn overwritten(self) -> Option<T> {
        if self.full() {
            self.front()
        } else {
            None
        }
    }

    /// After the oldest item has been taken, if there is one.
    pub open spec fn popped(self) -> Self {
        StreamView {
            buffer: if self.buffer.len() == 0 {
                self.buffer
            } else {
                self.buffer.drop_first()
            },
            ..self
        }
    }

    /// After an item has been put behind the others and every waiting consumer
    /// has been called.
    pub open spec fn appended(self, item: T) -> Self {
        StreamView { buffer: self.buffer.push(item), waiters: Seq::empty(), ..self }
    }

    /// After a push that drops the oldest item where there is no room.
    pub open spec fn pushed(self, item: T) -> Self {
        if self.full() {
            self.popped().appended(item)
        } else {
            self.appended(item)
        }
    }

    /// After every item has been dropped.
    pub open spec fn cleared(self) -> Self {
        StreamView { buffer: Seq::empty(), ..self }
    }

    /// After a sender has been added.
    pub open spec fn sender_added(self) -> Self {
        StreamView { sender_count: self.sender_count + 1, ..self }
    }

    /// After a sender has gone. The last one closes the stream and calls every
    /// waiting consumer.
    pub open spec fn sender_removed(self) -> Self {
        if self.sender_count == 1 {
            StreamView { sender_count: 0, closed: true, waiters: Seq::empty(), ..self }
        } else {
            StreamView { sender_count: (self.sender_count - 1) as nat, ..self }
        }
    }

    /// After the consumer has gone.
    pub open spec fn consumer_removed(self) -> Self {
        StreamView { consumer_gone: true, waiters: Seq::empty(), ..self }
    }

    /// After a waiter has withdrawn.
    pub open spec fn waiter_removed(self, waiter: Option<u64>) -> Self {
        StreamView { waiters: removed(self.waiters, waiter), ..self }
    }

    /// The number of a waiter: its own, or the next one where it has none.
    pub open spec fn number_of(self, waiter: Option<u64>) -> u64 {
        match waiter {
            Some(id) => id,
            None => self.next_waiter,
        }
    }

    /// After a waiter has left a waker behind.
    pub open spec fn waiter_added(self, waiter: Option<u64>, same: bool, waker: Waker) -> Self {
        StreamView {
            waiters: entered(self.waiters, self.number_of(waiter), same, waker),
            next_waiter: match waiter {
                Some(_) => self.next_waiter,
                None => number_after(self.next_waiter),
            },
            ..self
        }
    }

    /// One poll of a consumer whose waiter number is `waiter`: what the stream
    /// and the waiter number are afterwards, and what is given back. `same`
    /// tells whether the waker that the waiter has left behind wakes the same
    /// task as `waker`.
    pub open spec fn poll(self, waiter: Option<u64>, same: bool, waker: Waker) -> (
        Self,
        Option<u64>,
        Polled<T>,
    ) {
        if self.buffer.len() > 0 {
            (
                self.popped().waiter_removed(waiter),
                None,
                Polled {
                    result: Poll::Ready(self.front()),
                    released: waker_of(self.waiters, waiter),
                    unused: Some(waker),
                    signal: CapacitySignal::NotifyOne,
                },
            )
        } else if self.closed {
            (
                self.waiter_removed(waiter),
                None,
                Polled {
                    result: Poll::Ready(None),
                    released: waker_of(self.waiters, waiter),
                    unused: Some(waker),
                    signal: CapacitySignal::Silent,
                },
            )
        } else {
            let id = self.number_of(waiter);
            let keep = registered(self.waiters, id) && same;
            (
                self.waiter_added(waiter, same, waker),
                Some(id),
                Polled {
                    result: Poll::Pending,
                    released: if keep {
                        None
                    } else {
                        waker_of(self.waiters, Some(id))
                    },
                    unused: if keep {
                        Some(waker)
                    } else {
                        None
                    },
                    signal: CapacitySignal::Silent,
                },
            )
        }
    }

    /// Whether `same` is an answer of `Waker::will_wake` to the question that a
    /// poll asks: does the waker that this waiter has left behind wake the same
    /// task as `current`? Where a poll has no such question, the answer is no.
    pub open spec fn answered(self, waiter: Option<u64>, current: Waker, same: bool) -> bool {
        if self.buffer.len() > 0 || self.closed {
            !same
        } else {
            match waker_of(self.waiters, Some(self.number_of(waiter))) {
                Some(left) => call_ensures(Waker::will_wake, (&left, &current), same),
                None => !same,
            }
        }
    }
}

/// What a push gives back.
pub struct Pushed<T> {
    /// The item that had to make room, to be dropped.
    pub overwritten: Option<T>,
    /// The wakers of the waiting consumers, to be woken in this order.
    pub woken: Vec<(u64, Waker)>,
}

/// What a push that must not lose its item gives back.
pub enum PushAttempt<T> {
    /// The item is in the buffer; these wakers are to be woken in this order.
    Delivered(Vec<(u64, Waker)>),
    /// The consumer has gone; here is the item.
    ConsumerGone(T),
    /// There is no room; here is the item, to be tried again after a
    /// [`CapacitySignal`].
    Full(T),
}

/// What taking an item without waiting gives back.
pub struct Taken<T> {
    /// The oldest item, if there was one.
    pub item: Option<T>,
    /// What to tell the producers that wait for room.
    pub signal: CapacitySignal,
}

/// What emptying the buffer gives back.
pub struct Cleared<T> {
    /// The items that were in the buffer, to be dropped.
    pub items: VecDeque<T>,
    /// What to tell the producers that wait for room.
    pub signal: CapacitySignal,
}

/// What the end of the consumer gives back.
pub struct ConsumerClosed {
    /// The wakers of waiting consumers, to be dropped.
    pub stale: Vec<(u64, Waker)>,
    /// What to tell the producers that wait for room.
    pub signal: CapacitySignal,
}

/// What a poll gives back.
pub struct Polled<T> {
    /// The next item, or the end of the stream, or nothing yet.
    pub result: Poll<Option<T>>,
    /// The waker that was left behind earlier and is not needed any more, to be
    /// dropped.
    pub released: Option<Waker>,
    /// The new waker where it was not left behind, to be dropped.
    pub unused: Option<Waker>,
    /// What to tell the producers that wait for room.
    pub signal: CapacitySignal,
}

/// The state that the consumer and the producers share.
struct State<T> {
    buffer: VecDeque<T>,
    waiters: Vec<(u64, Waker)>,
    next_waiter: u64,
    closed: bool,
    consumer_gone: bool,
    sender_count: usize,
}

impl<T> State<T> {
    /// Looks for the entry with a waiter number.
    fn find_waiter(&self, id: u64) -> (index: Option<usize>)
        ensures
            match index {
                Some(i) => i < self.waiters@.len() && self.waiters@[i as int].0 == id,
                None => !registered(self.waiters@, id),
            },
    {
        let mut i: usize = 0;
        while i < self.waiters.len()
            invariant
                i <= self.waiters@.len(),
                forall|j: int| 0 <= j < i ==> (#[trigger] self.waiters@[j]).0 != id,
            decreases self.waiters@.len() - i,
        {
            if self.waiters[i].0 == id {
                return Some(i);
            }
            i += 1;
        }
        None
    }

    /// Leaves a waker behind for a waiter, which gets a number if it has none.
    /// Gives back the waker that was replaced. The new waker stays in
    /// `next_waker` where it was not needed.
    fn register_waiter(
        &mut self,
        waiter: &mut Option<u64>,
        same: bool,
        next_waker: &mut Option<Waker>,
    ) -> (released: Option<Waker>)
        requires
            distinct(old(self).waiters@),
            *old(next_waker) is Some,
        ensures
            ({
                let id = match *old(waiter) {
                    Some(id) => id,
                    None => old(self).next_waiter,
                };
                let keep = registered(old(self).waiters@, id) && same;
                &&& *final(waiter) == Some(id)
                &&& final(self).waiters@ == entered(
                    old(self).waiters@,
                    id,
                    same,
                    (*old(next_waker))->0,
                )
                &&& *final(next_waker) == if keep {
                    *old(next_waker)
                } else {
                    None
                }
                &&& released == if keep {
                    None
                } else {
                    waker_of(old(self).waiters@, Some(id))
                }
            }),
            final(self).next_waiter == match *old(waiter) {
                Some(_) => old(self).next_waiter,
                None => number_after(old(self).next_waiter),
            },
            final(self).buffer == old(self).buffer,
            final(self).closed == old(self).closed,
            final(self).consumer_gone == old(self).consumer_gone,
            final(self).sender_count == old(self).sender_count,
    {
        let id: u64 = match *waiter {
            Some(id) => id,
            None => {
                let id: u64 = self.next_waiter;
                self.next_waiter = if id == u64::MAX {
                    1
                } else {
                    id + 1
                };
                *waiter = Some(id);
                id
            },
        };
        match self.find_waiter(id) {
            Some(index) => {
                assert(position(self.waiters@, id) == index);
                if same {
                    None
                } else {
                    match next_waker.take() {
                        Some(waker) => {
                            let mut entry = (id, waker);
                            std::mem::swap(&mut self.waiters[index], &mut entry);
                            Some(entry.1)
                        },
                        None => None,
                    }
                }
            },
            None => {
                if let Some(waker) = next_waker.take() {
                    self.waiters.push((id, waker));
                }
                None
            },
        }
    }

    /// Takes back what a waiter left behind.
    fn remove_waiter(&mut self, waiter: Option<u64>) -> (released: Option<Waker>)
        requires
            distinct(old(self).waiters@),
        ensures
            final(self).waiters@ == removed(old(self).waiters@, waiter),
            released == waker_of(old(self).waiters@, waiter),
            final(self).next_waiter == old(self).next_waiter,
            final(self).buffer == old(self).buffer,
            final(self).closed == old(self).closed,
            final(self).consumer_gone == old(self).consumer_gone,
            final(self).sender_count == old(self).sender_count,
    {
        match waiter {
            Some(id) => match self.find_waiter(id) {
                Some(index) => {
                    assert(position(self.waiters@, id) == index);
                    Some(self.waiters.swap_remove(index).1)
                },
                None => None,
            },
            None => None,
        }
    }

    /// Takes every waker that was left behind.
    fn take_waiters(&mut self) -> (waiters: Vec<(u64, Waker)>)
        ensures
            waiters@ == old(self).waiters@,
            final(self).waiters@ == Seq::<(u64, Waker)>::empty(),
            final(self).next_waiter == old(self).next_waiter,
            final(self).buffer == old(self).buffer,
            final(self).closed == old(self).closed,
            final(self).consumer_gone == old(self).consumer_gone,
            final(self).sender_count == old(self).sender_count,
    {
        let mut waiters = Vec::new();
        std::mem::swap(&mut self.waiters, &mut waiters);
        waiters
    }
}

/// Taking out an entry leaves the others with different numbers, and none with
/// the number of the one taken out.
pub proof fn lemma_removed(waiters: Seq<(u64, Waker)>, waiter: Option<u64>)
    requires
        distinct(waiters),
    ensures
        distinct(removed(waiters, waiter)),
        removed(waiters, waiter).len() <= waiters.len(),
        waiter matches Some(id) ==> !registered(removed(waiters, waiter), id),
        forall|id: u64|
            Some(id) != waiter ==> (#[trigger] registered(removed(waiters, waiter), id)
                == registered(waiters, id)),
{
    if let Some(gone) = waiter {
        if registered(waiters, gone) {
            let at = position(waiters, gone);
            let rest = removed(waiters, waiter);
            let last = waiters.len() - 1;
            assert forall|id: u64| id != gone && registered(waiters, id) implies #[trigger] registered(
                rest,
                id,
            ) by {
                let i = position(waiters, id);
                if i == last {
                    assert(rest[at].0 == id);
                } else {
                    assert(rest[i].0 == id);
                }
            }
            assert forall|id: u64| id != gone && #[trigger] registered(rest, id) implies registered(
                waiters,
                id,
            ) by {
                let i = position(rest, id);
                if i == at {
                    assert(waiters[last].0 == id);
                } else {
                    assert(waiters[i].0 == id);
                }
            }
        }
    }
}

/// Leaving a waker behind keeps the numbers different and adds none but the
/// waiter's own.
pub proof fn lemma_entered(waiters: Seq<(u64, Waker)>, id: u64, same: bool, waker: Waker)
    requires
        distinct(waiters),
    ensures
        distinct(entered(waiters, id, same, waker)),
        registered(entered(waiters, id, same, waker), id),
        forall|other: u64|
            other != id ==> (#[trigger] registered(entered(waiters, id, same, waker), other)
                == registered(waiters, other)),
{
    let more = entered(waiters, id, same, waker);
    if !registered(waiters, id) {
        assert(more[waiters.len() as int].0 == id);
    } else if !same {
        assert(more[position(waiters, id)].0 == id);
    }
    assert forall|other: u64| other != id implies #[trigger] registered(more, other) == registered(
        waiters,
        other,
    ) by {
        if registered(waiters, other) {
            assert(more[position(waiters, other)].0 == other);
        }
        if registered(more, other) {
            assert(waiters[position(more, other)].0 == other);
        }
    }
}

/// A bounded stream of items from callbacks to polling consumers.
pub struct BoundedAsyncStream<T> {
    state: State<T>,
    capacity: usize,
    id: Ghost<int>,
}

/// The right to push into one stream. The stream counts its senders; it is
/// closed once each of them has been given back.
pub struct AsyncStreamSender<T> {
    stream: Ghost<int>,
    items: PhantomData<T>,
}

/// A request for the next item of one stream, which may have to be polled more
/// than once.
pub struct NextItem {
    stream: Ghost<int>,
    waiter: Option<u64>,
}

impl<T> View for BoundedAsyncStream<T> {
    type V = StreamView<T>;

    closed spec fn view(&self) -> StreamView<T> {
        StreamView {
            id: self.id@,
            buffer: self.state.buffer@,
            waiters: self.state.waiters@,
            next_waiter: self.state.next_waiter,
            closed: self.state.closed,
            consumer_gone: self.state.consumer_gone,
            sender_count: self.state.sender_count as nat,
            capacity: self.capacity as nat,
        }
    }
}

impl<T> BoundedAsyncStream<T> {
    /// Makes an empty, open stream and its first sender.
    pub fn new(capacity: usize) -> (made: (Self, AsyncStreamSender<T>))
        requires
            capacity > 0,
        ensures
            made.0@ == (StreamView::<T> {
                id: made.0@.id,
                buffer: Seq::empty(),
                waiters: Seq::empty(),
                next_waiter: 1,
                closed: false,
                consumer_gone: false,
                sender_count: 1,
                capacity: capacity as nat,
            }),
            made.0@.wf(),
            made.1.stream() == made.0@.id,
    {
        let id: Ghost<int> = Ghost(arbitrary());
        let stream = BoundedAsyncStream {
            state: State {
                buffer: VecDeque::new(),
                waiters: Vec::new(),
                next_waiter: 1,
                closed: false,
                consumer_gone: false,
                sender_count: 1,
            },
            capacity,
            id,
        };
        (stream, AsyncStreamSender { stream: id, items: PhantomData })
    }

    /// Asks for the next item. Nothing happens before the request is polled.
    pub fn next(&self) -> (request: NextItem)
        ensures
            request.waiter() == None::<u64>,
            request.stream() == self@.id,
    {
        NextItem { stream: self.id, waiter: None }
    }

    /// Takes the oldest item, without waiting.
    pub fn try_next(&mut self) -> (taken: Taken<T>)
        requires
            old(self)@.wf(),
        ensures
            taken.item == old(self)@.front(),
            final(self)@ == old(self)@.popped(),
            final(self)@.wf(),
            taken.signal == if taken.item is Some {
                CapacitySignal::NotifyOne
            } else {
                CapacitySignal::Silent
            },
    {
        let item = self.state.buffer.pop_front();
        let signal = if item.is_some() {
            CapacitySignal::NotifyOne
        } else {
            CapacitySignal::Silent
        };
        Taken { item, signal }
    }

    /// Whether every sender has gone. Items may still be in the buffer.
    pub fn is_closed(&self) -> (closed: bool)
        ensures
            closed == self@.closed,
    {
        self.state.closed
    }

    /// The number of items in the buffer.
    pub fn buffered_count(&self) -> (count: usize)
        ensures
            count == self@.buffer.len(),
    {
        self.state.buffer.len()
    }

    /// The most items that the buffer may hold.
    pub fn capacity(&self) -> (capacity: usize)
        ensures
            capacity == self@.capacity,
    {
        self.capacity
    }

    /// The number of waiting consumers that have left a waker behind.
    pub fn waiter_count(&self) -> (count: usize)
        ensures
            count == self@.waiters.len(),
    {
        self.state.waiters.len()
    }

    /// The number of senders.
    pub fn sender_count(&self) -> (count: usize)
        ensures
            count == self@.sender_count,
    {
        self.state.sender_count
    }

    /// Whether a producer that must not lose its item has to wait: the buffer is
    /// full and somebody may still take from it.
    pub fn must_wait(&self) -> (wait: bool)
        ensures
            wait == self@.must_wait(),
    {
        !self.state.consumer_gone && self.state.buffer.len() >= self.capacity
    }

    /// Takes every item out of the buffer without closing the stream.
    pub fn clear_buffer(&mut self) -> (cleared: Cleared<T>)
        requires
            old(self)@.wf(),
        ensures
            cleared.items@ == old(self)@.buffer,
            cleared.signal == CapacitySignal::NotifyAll,
            final(self)@ == old(self)@.cleared(),
            final(self)@.wf(),
    {
        let mut items = VecDeque::new();
        std::mem::swap(&mut self.state.buffer, &mut items);
        Cleared { items, signal: CapacitySignal::NotifyAll }
    }

    /// One poll for the next item, given whether the waker that this waiter has
    /// left behind wakes the same task as the new one.
    pub fn poll_next_item_with(
        &mut self,
        waiter: &mut Option<u64>,
        same: bool,
        next_waker: Waker,
    ) -> (polled: Polled<T>)
        requires
            old(self)@.wf(),
        ensures
            (final(self)@, *final(waiter), polled) == old(self)@.poll(
                *old(waiter),
                same,
                next_waker,
            ),
            final(self)@.wf(),
    {
        proof {
            lemma_removed(self.state.waiters@, *waiter);
            lemma_entered(self.state.waiters@, self@.number_of(*waiter), same, next_waker);
        }
        match self.state.buffer.pop_front() {
            Some(item) => {
                let released = self.state.remove_waiter(waiter.take());
                Polled {
                    result: Poll::Ready(Some(item)),
                    released,
                    unused: Some(next_waker),
                    signal: CapacitySignal::NotifyOne,
                }
            },
            None => if self.state.closed {
                let released = self.state.remove_waiter(waiter.take());
                Polled {
                    result: Poll::Ready(None),
                    released,
                    unused: Some(next_waker),
                    signal: CapacitySignal::Silent,
                }
            } else {
                let mut unused = Some(next_waker);
                let released = self.state.register_waiter(waiter, same, &mut unused);
                Polled { result: Poll::Pending, released, unused, signal: CapacitySignal::Silent }
            },
        }
    }

    /// One poll for the next item. `next_waker` is a waker for the same task as
    /// `current`, ready to be left behind.
    pub fn poll_next_item(
        &mut self,
        waiter: &mut Option<u64>,
        current: &Waker,
        next_waker: Waker,
    ) -> (polled: Polled<T>)
        requires
            old(self)@.wf(),
        ensures
            exists|same: bool| #[trigger]
                old(self)@.answered(*old(waiter), *current, same) && (
                    final(self)@,
                    *final(waiter),
                    polled,
                ) == old(self)@.poll(*old(waiter), same, next_waker),
            final(self)@.wf(),
    {
        let same = self.wakes_same_task(*waiter, current);
        assert(self@.answered(*waiter, *current, same));
        self.poll_next_item_with(waiter, same, next_waker)
    }

    /// Whether the waker that a waiter has left behind wakes the same task as
    /// `current`, where a poll has to know.
    fn wakes_same_task(&self, waiter: Option<u64>, current: &Waker) -> (same: bool)
        requires
            self@.wf(),
        ensures
            self@.answered(waiter, *current, same),
    {
        if self.state.buffer.len() > 0 || self.state.closed {
            return false;
        }
        let id: u64 = match waiter {
            Some(id) => id,
            None => self.state.next_waiter,
        };
        match self.state.find_waiter(id) {
            Some(index) => {
                assert(position(self.state.waiters@, id) == index);
                self.state.waiters[index].1.will_wake(current)
            },
            None => false,
        }
    }

    /// One poll of the stream itself: every such poll uses the same waiter
    /// number, so at most one waker is left behind.
    pub fn poll_next(&mut self, current: &Waker, next_waker: Waker) -> (polled: Polled<T>)
        requires
            old(self)@.wf(),
        ensures
            exists|same: bool| #[trigger]
                old(self)@.answered(Some(STREAM_WAITER), *current, same) && ({
                    let outcome = old(self)@.poll(Some(STREAM_WAITER), same, next_waker);
                    final(self)@ == outcome.0 && polled == outcome.2
                }),
            final(self)@.wf(),
    {
        let mut waiter: Option<u64> = Some(STREAM_WAITER);
        self.poll_next_item(&mut waiter, current, next_waker)
    }

    /// Ends the consumer.
    pub fn close_consumer(&mut self) -> (closed: ConsumerClosed)
        requires
            old(self)@.wf(),
        ensures
            closed.stale@ == old(self)@.waiters,
            closed.signal == CapacitySignal::NotifyAll,
            final(self)@ == old(self)@.consumer_removed(),
            final(self)@.consumer_gone,
            final(self)@.wf(),
    {
        self.state.consumer_gone = true;
        let stale = self.state.take_waiters();
        ConsumerClosed { stale, signal: CapacitySignal::NotifyAll }
    }
}

impl<T> AsyncStreamSender<T> {
    /// The stream that the sender is for.
    pub closed spec fn stream(self) -> int {
        self.stream@
    }

    /// Makes another sender.
    pub fn clone(&self, stream: &mut BoundedAsyncStream<T>) -> (sender: Self)
        requires
            old(stream)@.wf(),
            self.stream() == old(stream)@.id,
            0 < old(stream)@.sender_count < usize::MAX,
        ensures
            final(stream)@ == old(stream)@.sender_added(),
            final(stream)@.wf(),
            sender.stream() == final(stream)@.id,
    {
        stream.state.sender_count = stream.state.sender_count + 1;
        AsyncStreamSender { stream: self.stream, items: PhantomData }
    }

    /// Puts an item behind the others. Where there is no room, the oldest item
    /// goes.
    pub fn push(&self, stream: &mut BoundedAsyncStream<T>, item: T) -> (pushed: Pushed<T>)
        requires
            old(stream)@.wf(),
            self.stream() == old(stream)@.id,
        ensures
            pushed.overwritten == old(stream)@.overwritten(),
            pushed.woken@ == old(stream)@.waiters,
            final(stream)@ == old(stream)@.pushed(item),
            final(stream)@.wf(),
    {
        let overwritten = if stream.state.buffer.len() >= stream.capacity {
            stream.state.buffer.pop_front()
        } else {
            None
        };
        stream.state.buffer.push_back(item);
        let woken = stream.state.take_waiters();
        Pushed { overwritten, woken }
    }

    /// Puts an item behind the others if there is room, and gives it back if
    /// the consumer has gone or if the producer has to wait for room.
    pub fn push_or_block(&self, stream: &mut BoundedAsyncStream<T>, item: T) -> (attempt:
        PushAttempt<T>)
        requires
            old(stream)@.wf(),
            self.stream() == old(stream)@.id,
        ensures
            if old(stream)@.must_wait() {
                attempt == PushAttempt::Full(item) && final(stream)@ == old(stream)@
            } else if old(stream)@.consumer_gone {
                attempt == PushAttempt::ConsumerGone(item) && final(stream)@ == old(stream)@
            } else {
                &&& attempt matches PushAttempt::Delivered(woken) && woken@
                    == old(stream)@.waiters
                &&& final(stream)@ == old(stream)@.appended(item)
            },
            attempt is ConsumerGone <==> old(stream)@.consumer_gone,
            attempt is Full <==> !old(stream)@.consumer_gone && old(stream)@.buffer.len()
                == old(stream)@.capacity,
            final(stream)@.wf(),
    {
        if stream.must_wait() {
            return PushAttempt::Full(item);
        }
        if stream.state.consumer_gone {
            return PushAttempt::ConsumerGone(item);
        }
        stream.state.buffer.push_back(item);
        PushAttempt::Delivered(stream.state.take_waiters())
    }

    /// The number of items in the buffer.
    pub fn buffered_count(&self, stream: &BoundedAsyncStream<T>) -> (count: usize)
        requires
            self.stream() == stream@.id,
        ensures
            count == stream@.buffer.len(),
    {
        stream.buffered_count()
    }

    /// Whether the consumer has gone.
    pub fn is_consumer_gone(&self, stream: &BoundedAsyncStream<T>) -> (gone: bool)
        requires
            self.stream() == stream@.id,
        ensures
            gone == stream@.consumer_gone,
    {
        stream.state.consumer_gone
    }

    /// Gives the sender back. The wakers that come out are to be woken in this
    /// order: the last sender closes the stream.
    pub fn close(self, stream: &mut BoundedAsyncStream<T>) -> (woken: Vec<(u64, Waker)>)
        requires
            old(stream)@.wf(),
            self.stream() == old(stream)@.id,
            old(stream)@.sender_count > 0,
        ensures
            woken@ == if old(stream)@.sender_count == 1 {
                old(stream)@.waiters
            } else {
                Seq::empty()
            },
            final(stream)@ == old(stream)@.sender_removed(),
            final(stream)@.wf(),
    {
        stream.state.sender_count = stream.state.sender_count - 1;
        if stream.state.sender_count == 0 {
            stream.state.closed = true;
            stream.state.take_waiters()
        } else {
            Vec::new()
        }
    }
}

impl NextItem {
    /// The stream that the request is for.
    pub closed spec fn stream(self) -> int {
        self.stream@
    }

    /// The waiter number that the request has got, if it had to wait.
    pub closed spec fn waiter(self) -> Option<u64> {
        self.waiter
    }

    /// Whether the request has had to wait, and so may have left a waker behind.
    pub fn is_waiting(&self) -> (waiting: bool)
        ensures
            waiting == (self.waiter() is Some),
    {
        self.waiter.is_some()
    }

    /// One poll of the request.
    pub fn poll<T>(
        &mut self,
        stream: &mut BoundedAsyncStream<T>,
        current: &Waker,
        next_waker: Waker,
    ) -> (polled: Polled<T>)
        requires
            old(stream)@.wf(),
            old(self).stream() == old(stream)@.id,
        ensures
            final(self).stream() == old(self).stream(),
            exists|same: bool| #[trigger]
                old(stream)@.answered(old(self).waiter(), *current, same) && (
                    final(stream)@,
                    final(self).waiter(),
                    polled,
                ) == old(stream)@.poll(old(self).waiter(), same, next_waker),
            final(stream)@.wf(),
    {
        stream.poll_next_item(&mut self.waiter, current, next_waker)
    }

    /// Drops the request. The waker that it left behind comes out, to be
    /// dropped.
    pub fn cancel<T>(self, stream: &mut BoundedAsyncStream<T>) -> (released: Option<Waker>)
        requires
            old(stream)@.wf(),
            self.stream() == old(stream)@.id,
        ensures
            released == waker_of(old(stream)@.waiters, self.waiter()),
            final(stream)@ == old(stream)@.waiter_removed(self.waiter()),
            final(stream)@.wf(),
    {
        proof {
            lemma_removed(stream@.waiters, self.waiter());
        }
        stream.state.remove_waiter(self.waiter)
    }
}

} // verus!
